//! Co-located measurement contracts: the `_contract` object a metric group carries beside its
//! values, saying what the numbers measure, where, over what window, and which confusable
//! sibling they are **not**. Reader metadata only: nothing gates, classifies or diffs on it.

use vstd::prelude::*;
use crate::text::{is_unicode_whitespace, lemma_trim_keeps_nonblank_head, trim_spec};

verus! {

/// Longest a single contract string may be, in characters.
pub const CONTRACT_MAX_LEN: usize = 120;

/// What a metric group measures, where, over what window, and which sibling it is **not**.
/// Every axis is optional so a group can omit one that genuinely does not apply.
#[derive(Debug)]
pub struct MetricContract {
    /// What the numbers are.
    pub measures: Option<String>,
    /// Where on the timeline / which seam geometry.
    pub placement: Option<String>,
    /// Border, search radius, binning: whatever is load-bearing for reading the value.
    pub window: Option<String>,
    /// The confusable sibling(s) this is not, named first.
    pub not: Option<String>,
}

/// The text of one optional axis.
pub open spec fn axis_text(s: Option<String>) -> Option<Seq<char>> {
    match s {
        Some(t) => Some(t@),
        None => None,
    }
}

/// The four axes of a contract as text: `(measures, placement, window, not)`.
pub type ContractText = (Option<Seq<char>>, Option<Seq<char>>, Option<Seq<char>>, Option<Seq<char>>);

impl View for MetricContract {
    type V = ContractText;

    open spec fn view(&self) -> ContractText {
        (axis_text(self.measures), axis_text(self.placement), axis_text(self.window), axis_text(self.not))
    }
}

fn axis_eq(a: &Option<String>, b: &Option<String>) -> (r: bool)
    ensures
        r == (axis_text(*a) == axis_text(*b)),
{
    match (a, b) {
        (Some(x), Some(y)) => x.eq(y),
        (None, None) => true,
        _ => false,
    }
}

fn axis_clone(a: &Option<String>) -> (r: Option<String>)
    ensures
        axis_text(r) == axis_text(*a),
{
    match a {
        Some(t) => Some(t.clone()),
        None => None,
    }
}

impl Clone for MetricContract {
    fn clone(&self) -> (r: Self)
        ensures
            r@ == self@,
    {
        MetricContract {
            measures: axis_clone(&self.measures),
            placement: axis_clone(&self.placement),
            window: axis_clone(&self.window),
            not: axis_clone(&self.not),
        }
    }
}

impl PartialEq for MetricContract {
    fn eq(&self, other: &Self) -> (r: bool) {
        axis_eq(&self.measures, &other.measures) && axis_eq(&self.placement, &other.placement)
            && axis_eq(&self.window, &other.window) && axis_eq(&self.not, &other.not)
    }
}

impl vstd::std_specs::cmp::PartialEqSpecImpl for MetricContract {
    open spec fn obeys_eq_spec() -> bool {
        true
    }

    open spec fn eq_spec(&self, other: &MetricContract) -> bool {
        self@ == other@
    }
}

impl Default for MetricContract {
    fn default() -> (r: Self)
        ensures
            r@ == (None::<Seq<char>>, None::<Seq<char>>, None::<Seq<char>>, None::<Seq<char>>),
    {
        MetricContract { measures: None, placement: None, window: None, not: None }
    }
}

/// An axis is within the cap when absent or at most [`CONTRACT_MAX_LEN`] characters long.
pub open spec fn axis_within_cap(a: Option<Seq<char>>) -> bool {
    match a {
        Some(t) => t.len() <= CONTRACT_MAX_LEN,
        None => true,
    }
}

/// Every present axis of `c` is within [`CONTRACT_MAX_LEN`] characters.
pub open spec fn contract_within_cap(c: ContractText) -> bool {
    axis_within_cap(c.0) && axis_within_cap(c.1) && axis_within_cap(c.2) && axis_within_cap(c.3)
}

fn axis_within_cap_exec(a: &Option<String>) -> (r: bool)
    ensures
        r == axis_within_cap(axis_text(*a)),
{
    match a {
        Some(t) => t.as_str().unicode_len() <= CONTRACT_MAX_LEN,
        None => true,
    }
}

/// The length cap reads all four axes: a contract is within the cap exactly when each of
/// `measures`, `placement`, `window` and `not` is absent or at most [`CONTRACT_MAX_LEN`]
/// characters, so any one over-long axis (the `not` axis included) breaks it.
pub proof fn lemma_length_cap_checks_every_axis(c: ContractText)
    ensures
        contract_within_cap(c) <==> (forall|k: int|
            0 <= k < 4 ==> match #[trigger] axis_of(c, k) {
                Some(t) => t.len() <= CONTRACT_MAX_LEN,
                None => true,
            }),
        c.3 matches Some(t) && t.len() > CONTRACT_MAX_LEN ==> !contract_within_cap(c),
        c.2 matches Some(t) && t.len() > CONTRACT_MAX_LEN ==> !contract_within_cap(c),
        c.1 matches Some(t) && t.len() > CONTRACT_MAX_LEN ==> !contract_within_cap(c),
        c.0 matches Some(t) && t.len() > CONTRACT_MAX_LEN ==> !contract_within_cap(c),
        (c.0 is None && c.1 is None && c.2 is None && c.3 is None) ==> contract_within_cap(c),
{
    assert(axis_of(c, 0) == c.0);
    assert(axis_of(c, 1) == c.1);
    assert(axis_of(c, 2) == c.2);
    assert(axis_of(c, 3) == c.3);
}

/// Axis `k` of a contract: 0 `measures`, 1 `placement`, 2 `window`, 3 `not`.
pub open spec fn axis_of(c: ContractText, k: int) -> Option<Seq<char>> {
    if k == 0 {
        c.0
    } else if k == 1 {
        c.1
    } else if k == 2 {
        c.2
    } else {
        c.3
    }
}

impl MetricContract {
    /// Every present string is within [`CONTRACT_MAX_LEN`] characters.
    pub fn within_length_cap(&self) -> (r: bool)
        ensures
            r == contract_within_cap(self@),
            r <==> (self.measures is None || self.measures->0@.len() <= CONTRACT_MAX_LEN) && (
            self.placement is None || self.placement->0@.len() <= CONTRACT_MAX_LEN) && (self.window
                is None || self.window->0@.len() <= CONTRACT_MAX_LEN) && (self.not is None
                || self.not->0@.len() <= CONTRACT_MAX_LEN),
    {
        proof {
            lemma_length_cap_checks_every_axis(self@);
        }
        axis_within_cap_exec(&self.measures) && axis_within_cap_exec(&self.placement)
            && axis_within_cap_exec(&self.window) && axis_within_cap_exec(&self.not)
    }
}

/// A metric group `T` plus its co-located contract.
pub struct Contracted<T> {
    /// Absent on corpora written before contracts existed, and whenever a writer does not stamp one.
    pub contract: Option<MetricContract>,
    pub value: T,
}

impl<T> Contracted<T> {
    /// Wrap a value with its contract.
    pub fn new(value: T, contract: MetricContract) -> (r: Self)
        ensures
            r.value == value,
            r.contract == Some(contract),
    {
        Contracted { contract: Some(contract), value }
    }
}

impl<T> core::ops::Deref for Contracted<T> {
    type Target = T;

    /// The wrapped metric group.
    fn deref(&self) -> (r: &T)
        ensures
            *r == self.value,
    {
        &self.value
    }
}

/// Stamp a contract onto an optional metric group, leaving `None` as `None`: a contract with no
/// values beside it would assert that something was measured.
pub fn stamp<T>(value: Option<T>, contract: MetricContract) -> (r: Option<Contracted<T>>)
    ensures
        match value {
            Some(v) => r is Some && r->0.value == v && r->0.contract == Some(contract),
            None => r is None,
        },
{
    match value {
        Some(v) => Some(Contracted::new(v, contract)),
        None => None,
    }
}

/// A contract with all four axes present.
pub open spec fn full_contract(
    measures: Seq<char>,
    placement: Seq<char>,
    window: Seq<char>,
    not: Seq<char>,
) -> ContractText {
    (Some(measures), Some(placement), Some(window), Some(not))
}

/// Text of the shipped contract for `equivalence_production`.
pub open spec fn equivalence_production_contract_text() -> ContractText {
    full_contract(
        "silence-character class the production gate acted on: dropout vs mutual/program silence"@,
        "scan-time gap: A's silent core, donor window = that core offset-mapped onto B"@,
        "scan blocks of `scan_recipe.scan_block_ms`; noise floor = median over +/-2.0s context"@,
        "equivalence_diagnostic (second opinion, gates nothing); not a seam or lag measurement"@,
    )
}

/// Contract for `equivalence_production` — the authoritative silence-character verdict.
pub fn equivalence_production_contract() -> (c: MetricContract)
    ensures
        c@ == equivalence_production_contract_text(),
{
    MetricContract {
        measures: Some(String::from_str("silence-character class the production gate acted on: dropout vs mutual/program silence")),
        placement: Some(String::from_str("scan-time gap: A's silent core, donor window = that core offset-mapped onto B")),
        window: Some(String::from_str("scan blocks of `scan_recipe.scan_block_ms`; noise floor = median over +/-2.0s context")),
        not: Some(String::from_str("equivalence_diagnostic (second opinion, gates nothing); not a seam or lag measurement")),
    }
}

/// Text of the shipped contract for `equivalence_diagnostic`.
pub open spec fn equivalence_diagnostic_contract_text() -> ContractText {
    full_contract(
        "same classifier as equivalence_production, re-run from the fingerprint's own sensors"@,
        "the scan verdict's own a_span_secs / donor_span_secs - adopted, not re-derived"@,
        "scan blocks of `scan_recipe.scan_block_ms`; bin lattice phased differently than scan's"@,
        "equivalence_production, the verdict skip_equivalent_gaps acts on; not a 'fine' reading of it"@,
    )
}

/// Contract for `equivalence_diagnostic` — the second opinion, which nothing reads.
pub fn equivalence_diagnostic_contract() -> (c: MetricContract)
    ensures
        c@ == equivalence_diagnostic_contract_text(),
{
    MetricContract {
        measures: Some(String::from_str("same classifier as equivalence_production, re-run from the fingerprint's own sensors")),
        placement: Some(String::from_str("the scan verdict's own a_span_secs / donor_span_secs - adopted, not re-derived")),
        window: Some(String::from_str("scan blocks of `scan_recipe.scan_block_ms`; bin lattice phased differently than scan's")),
        not: Some(String::from_str("equivalence_production, the verdict skip_equivalent_gaps acts on; not a 'fine' reading of it")),
    }
}

/// Text of the shipped contract for `lag_decision`.
pub open spec fn lag_decision_contract_text() -> ContractText {
    full_contract(
        "per-shoulder waveform lag the seam gate decides patch/skip on: peak_r, frac_lag_ms, peak_z, prominence"@,
        "b_mapped nominal, not the throat; post shoulder centered sequentially on S + D_A + round(L_pre)"@,
        "recorded per shoulder as window_ms / max_lag_ms (defaults 1000 / 600); mono; gross-relative to b_mapped_end"@,
        "lag_editorial (Tier-3 diagnostic placement); never compare lag values across placements"@,
    )
}

/// Contract for `lag_decision` — the registration the patch/skip decision is made on.
pub fn lag_decision_contract() -> (c: MetricContract)
    ensures
        c@ == lag_decision_contract_text(),
{
    MetricContract {
        measures: Some(String::from_str("per-shoulder waveform lag the seam gate decides patch/skip on: peak_r, frac_lag_ms, peak_z, prominence")),
        placement: Some(String::from_str("b_mapped nominal, not the throat; post shoulder centered sequentially on S + D_A + round(L_pre)")),
        window: Some(String::from_str("recorded per shoulder as window_ms / max_lag_ms (defaults 1000 / 600); mono; gross-relative to b_mapped_end")),
        not: Some(String::from_str("lag_editorial (Tier-3 diagnostic placement); never compare lag values across placements")),
    }
}

/// Text of the shipped contract for `lag_editorial`.
pub open spec fn lag_editorial_contract_text() -> ContractText {
    full_contract(
        "same lag sweep as lag_decision but at a diagnostic placement; nothing gates, plans, or skips on it"@,
        "best-energy editorial bracket / structure throat, which can sit far from the seam the seam gate scores"@,
        "recorded per shoulder as window_ms / max_lag_ms; Tier-3, only with --fingerprint-diagnostics"@,
        "lag_decision (the registration production acts on); this is not a refinement of it"@,
    )
}

/// Contract for `lag_editorial` — the Tier-3 diagnostic placement nothing decides on.
pub fn lag_editorial_contract() -> (c: MetricContract)
    ensures
        c@ == lag_editorial_contract_text(),
{
    MetricContract {
        measures: Some(String::from_str("same lag sweep as lag_decision but at a diagnostic placement; nothing gates, plans, or skips on it")),
        placement: Some(String::from_str("best-energy editorial bracket / structure throat, which can sit far from the seam the seam gate scores")),
        window: Some(String::from_str("recorded per shoulder as window_ms / max_lag_ms; Tier-3, only with --fingerprint-diagnostics")),
        not: Some(String::from_str("lag_decision (the registration production acts on); this is not a refinement of it")),
    }
}

/// Text of the shipped contract for `donor_interior_aligned`.
pub open spec fn donor_interior_aligned_contract_text() -> ContractText {
    full_contract(
        "B occupancy over the span a fill would take: rms_db, silence_fraction, longest_silence_ms, continuous"@,
        "aligned bridge [b_mapped_start + L_pre, b_mapped_end + L_post) - each shoulder at its own lag"@,
        "the bridge span itself; continuous = no sub-floor run longer than 150ms"@,
        "donor_interior_nominal (registration-independent); this span carries the aliased-lag confound"@,
    )
}

/// Contract for `donor_interior_aligned` — B occupancy over the lag-adjusted bridge.
pub fn donor_interior_aligned_contract() -> (c: MetricContract)
    ensures
        c@ == donor_interior_aligned_contract_text(),
{
    MetricContract {
        measures: Some(String::from_str("B occupancy over the span a fill would take: rms_db, silence_fraction, longest_silence_ms, continuous")),
        placement: Some(String::from_str("aligned bridge [b_mapped_start + L_pre, b_mapped_end + L_post) - each shoulder at its own lag")),
        window: Some(String::from_str("the bridge span itself; continuous = no sub-floor run longer than 150ms")),
        not: Some(String::from_str("donor_interior_nominal (registration-independent); this span carries the aliased-lag confound")),
    }
}

/// Text of the shipped contract for `donor_interior_nominal`.
pub open spec fn donor_interior_nominal_contract_text() -> ContractText {
    full_contract(
        "is B quiet at the same program time as A's gap? silence_fraction ~1 => program-quiet, not a dropout"@,
        "nominal b_mapped span with NO lag adjustment - registration-independent by construction"@,
        "the nominal gap span; continuous = no sub-floor run longer than 150ms"@,
        "donor_interior_aligned (the lag-adjusted bridge); silence here is not a fill failure"@,
    )
}

/// Contract for `donor_interior_nominal` — the registration-independent program-quiet read.
pub fn donor_interior_nominal_contract() -> (c: MetricContract)
    ensures
        c@ == donor_interior_nominal_contract_text(),
{
    MetricContract {
        measures: Some(String::from_str("is B quiet at the same program time as A's gap? silence_fraction ~1 => program-quiet, not a dropout")),
        placement: Some(String::from_str("nominal b_mapped span with NO lag adjustment - registration-independent by construction")),
        window: Some(String::from_str("the nominal gap span; continuous = no sub-floor run longer than 150ms")),
        not: Some(String::from_str("donor_interior_aligned (the lag-adjusted bridge); silence here is not a fill failure")),
    }
}

/// Text of the shipped contract for `residual`.
pub open spec fn residual_contract_text() -> ContractText {
    full_contract(
        "least-squares same-source cancellation depth, dB below the local floor - the strong confirm"@,
        "the seam gate's structure throat (`gate_structure_align`), per shoulder - NOT b_mapped nominal"@,
        "seam window = fill_seam_search_secs (default 250ms); a side is absent when it has no usable floor"@,
        "seam_probe (Tier-3, gates nothing); deeper dB is better here - it is not a correlation"@,
    )
}

/// Contract for `residual` — the same-source cancellation confirm at the throat.
pub fn residual_contract() -> (c: MetricContract)
    ensures
        c@ == residual_contract_text(),
{
    MetricContract {
        measures: Some(String::from_str("least-squares same-source cancellation depth, dB below the local floor - the strong confirm")),
        placement: Some(String::from_str("the seam gate's structure throat (`gate_structure_align`), per shoulder - NOT b_mapped nominal")),
        window: Some(String::from_str("seam window = fill_seam_search_secs (default 250ms); a side is absent when it has no usable floor")),
        not: Some(String::from_str("seam_probe (Tier-3, gates nothing); deeper dB is better here - it is not a correlation")),
    }
}

/// Text of the shipped contract for `seam_probe`.
pub open spec fn seam_probe_contract_text() -> ContractText {
    full_contract(
        "encoding-robust seam metrics (R2, R4, envelope, recovered lag, snr) - why a dead seam is dead"@,
        "b_mapped, not the throat - so these do not compare against residual's numbers"@,
        "10ms envelope bins; recovery +/-25ms pre and +/-max_lag_ms post, sequentially centered"@,
        "residual (the seam gate's same-source confirm at the throat); no gate reads seam_probe"@,
    )
}

/// Contract for `seam_probe` — Tier-3 seam diagnosis, read by no gate.
pub fn seam_probe_contract() -> (c: MetricContract)
    ensures
        c@ == seam_probe_contract_text(),
{
    MetricContract {
        measures: Some(String::from_str("encoding-robust seam metrics (R2, R4, envelope, recovered lag, snr) - why a dead seam is dead")),
        placement: Some(String::from_str("b_mapped, not the throat - so these do not compare against residual's numbers")),
        window: Some(String::from_str("10ms envelope bins; recovery +/-25ms pre and +/-max_lag_ms post, sequentially centered")),
        not: Some(String::from_str("residual (the seam gate's same-source confirm at the throat); no gate reads seam_probe")),
    }
}

/// Every contract this build ships, paired with the wire key that carries it.
pub open spec fn shipped_contracts_spec() -> Seq<(Seq<char>, ContractText)> {
    seq![
        ("equivalence_production"@, equivalence_production_contract_text()),
        ("equivalence_diagnostic"@, equivalence_diagnostic_contract_text()),
        ("lag_decision"@, lag_decision_contract_text()),
        ("lag_editorial"@, lag_editorial_contract_text()),
        ("donor_interior_aligned"@, donor_interior_aligned_contract_text()),
        ("donor_interior_nominal"@, donor_interior_nominal_contract_text()),
        ("residual"@, residual_contract_text()),
        ("seam_probe"@, seam_probe_contract_text()),
    ]
}

/// Every contract this build ships, paired with the wire key that carries it.
pub fn shipped_contracts() -> (r: Vec<(String, MetricContract)>)
    ensures
        r@.len() == shipped_contracts_spec().len(),
        forall|i: int|
            0 <= i < r@.len() ==> (#[trigger] r@[i]).0@ == shipped_contracts_spec()[i].0 && r@[i].1@
                == shipped_contracts_spec()[i].1,
{
    let mut r: Vec<(String, MetricContract)> = Vec::new();
    r.push((String::from_str("equivalence_production"), equivalence_production_contract()));
    r.push((String::from_str("equivalence_diagnostic"), equivalence_diagnostic_contract()));
    r.push((String::from_str("lag_decision"), lag_decision_contract()));
    r.push((String::from_str("lag_editorial"), lag_editorial_contract()));
    r.push((String::from_str("donor_interior_aligned"), donor_interior_aligned_contract()));
    r.push((String::from_str("donor_interior_nominal"), donor_interior_nominal_contract()));
    r.push((String::from_str("residual"), residual_contract()));
    r.push((String::from_str("seam_probe"), seam_probe_contract()));
    assert(r@.len() == 8);
    r
}


/// Every shipped contract keeps each axis within [`CONTRACT_MAX_LEN`] characters.
pub proof fn lemma_shipped_contracts_within_cap()
    ensures
        forall|i: int|
            0 <= i < shipped_contracts_spec().len() ==> contract_within_cap(
                #[trigger] shipped_contracts_spec()[i].1,
            ),
{
    reveal_strlit("silence-character class the production gate acted on: dropout vs mutual/program silence");
    reveal_strlit("scan-time gap: A's silent core, donor window = that core offset-mapped onto B");
    reveal_strlit("scan blocks of `scan_recipe.scan_block_ms`; noise floor = median over +/-2.0s context");
    reveal_strlit("equivalence_diagnostic (second opinion, gates nothing); not a seam or lag measurement");
    reveal_strlit("same classifier as equivalence_production, re-run from the fingerprint's own sensors");
    reveal_strlit("the scan verdict's own a_span_secs / donor_span_secs - adopted, not re-derived");
    reveal_strlit("scan blocks of `scan_recipe.scan_block_ms`; bin lattice phased differently than scan's");
    reveal_strlit("equivalence_production, the verdict skip_equivalent_gaps acts on; not a 'fine' reading of it");
    reveal_strlit("per-shoulder waveform lag the seam gate decides patch/skip on: peak_r, frac_lag_ms, peak_z, prominence");
    reveal_strlit("b_mapped nominal, not the throat; post shoulder centered sequentially on S + D_A + round(L_pre)");
    reveal_strlit("recorded per shoulder as window_ms / max_lag_ms (defaults 1000 / 600); mono; gross-relative to b_mapped_end");
    reveal_strlit("lag_editorial (Tier-3 diagnostic placement); never compare lag values across placements");
    reveal_strlit("same lag sweep as lag_decision but at a diagnostic placement; nothing gates, plans, or skips on it");
    reveal_strlit("best-energy editorial bracket / structure throat, which can sit far from the seam the seam gate scores");
    reveal_strlit("recorded per shoulder as window_ms / max_lag_ms; Tier-3, only with --fingerprint-diagnostics");
    reveal_strlit("lag_decision (the registration production acts on); this is not a refinement of it");
    reveal_strlit("B occupancy over the span a fill would take: rms_db, silence_fraction, longest_silence_ms, continuous");
    reveal_strlit("aligned bridge [b_mapped_start + L_pre, b_mapped_end + L_post) - each shoulder at its own lag");
    reveal_strlit("the bridge span itself; continuous = no sub-floor run longer than 150ms");
    reveal_strlit("donor_interior_nominal (registration-independent); this span carries the aliased-lag confound");
    reveal_strlit("is B quiet at the same program time as A's gap? silence_fraction ~1 => program-quiet, not a dropout");
    reveal_strlit("nominal b_mapped span with NO lag adjustment - registration-independent by construction");
    reveal_strlit("the nominal gap span; continuous = no sub-floor run longer than 150ms");
    reveal_strlit("donor_interior_aligned (the lag-adjusted bridge); silence here is not a fill failure");
    reveal_strlit("least-squares same-source cancellation depth, dB below the local floor - the strong confirm");
    reveal_strlit("the seam gate's structure throat (`gate_structure_align`), per shoulder - NOT b_mapped nominal");
    reveal_strlit("seam window = fill_seam_search_secs (default 250ms); a side is absent when it has no usable floor");
    reveal_strlit("seam_probe (Tier-3, gates nothing); deeper dB is better here - it is not a correlation");
    reveal_strlit("encoding-robust seam metrics (R2, R4, envelope, recovered lag, snr) - why a dead seam is dead");
    reveal_strlit("b_mapped, not the throat - so these do not compare against residual's numbers");
    reveal_strlit("10ms envelope bins; recovery +/-25ms pre and +/-max_lag_ms post, sequentially centered");
    reveal_strlit("residual (the seam gate's same-source confirm at the throat); no gate reads seam_probe");
    reveal_strlit("equivalence_production");
    reveal_strlit("equivalence_diagnostic");
    reveal_strlit("lag_decision");
    reveal_strlit("lag_editorial");
    reveal_strlit("donor_interior_aligned");
    reveal_strlit("donor_interior_nominal");
    reveal_strlit("residual");
    reveal_strlit("seam_probe");
}


/// Every shipped contract and every wire key is distinct from every other: two groups sharing
/// contract text would give the reader no help telling them apart.
pub proof fn lemma_shipped_contracts_distinct()
    ensures
        forall|i: int, j: int|
            0 <= i < j < shipped_contracts_spec().len() ==> (#[trigger] shipped_contracts_spec()[i]).0
                != (#[trigger] shipped_contracts_spec()[j]).0 && shipped_contracts_spec()[i].1
                != shipped_contracts_spec()[j].1,
{
    reveal_strlit("silence-character class the production gate acted on: dropout vs mutual/program silence");
    reveal_strlit("scan-time gap: A's silent core, donor window = that core offset-mapped onto B");
    reveal_strlit("scan blocks of `scan_recipe.scan_block_ms`; noise floor = median over +/-2.0s context");
    reveal_strlit("equivalence_diagnostic (second opinion, gates nothing); not a seam or lag measurement");
    reveal_strlit("same classifier as equivalence_production, re-run from the fingerprint's own sensors");
    reveal_strlit("the scan verdict's own a_span_secs / donor_span_secs - adopted, not re-derived");
    reveal_strlit("scan blocks of `scan_recipe.scan_block_ms`; bin lattice phased differently than scan's");
    reveal_strlit("equivalence_production, the verdict skip_equivalent_gaps acts on; not a 'fine' reading of it");
    reveal_strlit("per-shoulder waveform lag the seam gate decides patch/skip on: peak_r, frac_lag_ms, peak_z, prominence");
    reveal_strlit("b_mapped nominal, not the throat; post shoulder centered sequentially on S + D_A + round(L_pre)");
    reveal_strlit("recorded per shoulder as window_ms / max_lag_ms (defaults 1000 / 600); mono; gross-relative to b_mapped_end");
    reveal_strlit("lag_editorial (Tier-3 diagnostic placement); never compare lag values across placements");
    reveal_strlit("same lag sweep as lag_decision but at a diagnostic placement; nothing gates, plans, or skips on it");
    reveal_strlit("best-energy editorial bracket / structure throat, which can sit far from the seam the seam gate scores");
    reveal_strlit("recorded per shoulder as window_ms / max_lag_ms; Tier-3, only with --fingerprint-diagnostics");
    reveal_strlit("lag_decision (the registration production acts on); this is not a refinement of it");
    reveal_strlit("B occupancy over the span a fill would take: rms_db, silence_fraction, longest_silence_ms, continuous");
    reveal_strlit("aligned bridge [b_mapped_start + L_pre, b_mapped_end + L_post) - each shoulder at its own lag");
    reveal_strlit("the bridge span itself; continuous = no sub-floor run longer than 150ms");
    reveal_strlit("donor_interior_nominal (registration-independent); this span carries the aliased-lag confound");
    reveal_strlit("is B quiet at the same program time as A's gap? silence_fraction ~1 => program-quiet, not a dropout");
    reveal_strlit("nominal b_mapped span with NO lag adjustment - registration-independent by construction");
    reveal_strlit("the nominal gap span; continuous = no sub-floor run longer than 150ms");
    reveal_strlit("donor_interior_aligned (the lag-adjusted bridge); silence here is not a fill failure");
    reveal_strlit("least-squares same-source cancellation depth, dB below the local floor - the strong confirm");
    reveal_strlit("the seam gate's structure throat (`gate_structure_align`), per shoulder - NOT b_mapped nominal");
    reveal_strlit("seam window = fill_seam_search_secs (default 250ms); a side is absent when it has no usable floor");
    reveal_strlit("seam_probe (Tier-3, gates nothing); deeper dB is better here - it is not a correlation");
    reveal_strlit("encoding-robust seam metrics (R2, R4, envelope, recovered lag, snr) - why a dead seam is dead");
    reveal_strlit("b_mapped, not the throat - so these do not compare against residual's numbers");
    reveal_strlit("10ms envelope bins; recovery +/-25ms pre and +/-max_lag_ms post, sequentially centered");
    reveal_strlit("residual (the seam gate's same-source confirm at the throat); no gate reads seam_probe");
    reveal_strlit("equivalence_production");
    reveal_strlit("equivalence_diagnostic");
    reveal_strlit("lag_decision");
    reveal_strlit("lag_editorial");
    reveal_strlit("donor_interior_aligned");
    reveal_strlit("donor_interior_nominal");
    reveal_strlit("residual");
    reveal_strlit("seam_probe");
    let t = shipped_contracts_spec();
    assert(t[0].0[12] != t[1].0[12]);
    assert(t[0].1.0.unwrap()[1] != t[1].1.0.unwrap()[1]);
    assert(t[0].0[0] != t[2].0[0]);
    assert(t[0].1.0.unwrap()[0] != t[2].1.0.unwrap()[0]);
    assert(t[0].0[0] != t[3].0[0]);
    assert(t[0].1.0.unwrap()[1] != t[3].1.0.unwrap()[1]);
    assert(t[0].0[0] != t[4].0[0]);
    assert(t[0].1.0.unwrap()[0] != t[4].1.0.unwrap()[0]);
    assert(t[0].0[0] != t[5].0[0]);
    assert(t[0].1.0.unwrap()[0] != t[5].1.0.unwrap()[0]);
    assert(t[0].0[0] != t[6].0[0]);
    assert(t[0].1.0.unwrap()[0] != t[6].1.0.unwrap()[0]);
    assert(t[0].0[0] != t[7].0[0]);
    assert(t[0].1.0.unwrap()[0] != t[7].1.0.unwrap()[0]);
    assert(t[1].0[0] != t[2].0[0]);
    assert(t[1].1.0.unwrap()[0] != t[2].1.0.unwrap()[0]);
    assert(t[1].0[0] != t[3].0[0]);
    assert(t[1].1.0.unwrap()[5] != t[3].1.0.unwrap()[5]);
    assert(t[1].0[0] != t[4].0[0]);
    assert(t[1].1.0.unwrap()[0] != t[4].1.0.unwrap()[0]);
    assert(t[1].0[0] != t[5].0[0]);
    assert(t[1].1.0.unwrap()[0] != t[5].1.0.unwrap()[0]);
    assert(t[1].0[0] != t[6].0[0]);
    assert(t[1].1.0.unwrap()[0] != t[6].1.0.unwrap()[0]);
    assert(t[1].0[0] != t[7].0[0]);
    assert(t[1].1.0.unwrap()[0] != t[7].1.0.unwrap()[0]);
    assert(t[2].0[4] != t[3].0[4]);
    assert(t[2].1.0.unwrap()[0] != t[3].1.0.unwrap()[0]);
    assert(t[2].0[0] != t[4].0[0]);
    assert(t[2].1.0.unwrap()[0] != t[4].1.0.unwrap()[0]);
    assert(t[2].0[0] != t[5].0[0]);
    assert(t[2].1.0.unwrap()[0] != t[5].1.0.unwrap()[0]);
    assert(t[2].0[0] != t[6].0[0]);
    assert(t[2].1.0.unwrap()[0] != t[6].1.0.unwrap()[0]);
    assert(t[2].0[0] != t[7].0[0]);
    assert(t[2].1.0.unwrap()[0] != t[7].1.0.unwrap()[0]);
    assert(t[3].0[0] != t[4].0[0]);
    assert(t[3].1.0.unwrap()[0] != t[4].1.0.unwrap()[0]);
    assert(t[3].0[0] != t[5].0[0]);
    assert(t[3].1.0.unwrap()[0] != t[5].1.0.unwrap()[0]);
    assert(t[3].0[0] != t[6].0[0]);
    assert(t[3].1.0.unwrap()[0] != t[6].1.0.unwrap()[0]);
    assert(t[3].0[0] != t[7].0[0]);
    assert(t[3].1.0.unwrap()[0] != t[7].1.0.unwrap()[0]);
    assert(t[4].0[15] != t[5].0[15]);
    assert(t[4].1.0.unwrap()[0] != t[5].1.0.unwrap()[0]);
    assert(t[4].0[0] != t[6].0[0]);
    assert(t[4].1.0.unwrap()[0] != t[6].1.0.unwrap()[0]);
    assert(t[4].0[0] != t[7].0[0]);
    assert(t[4].1.0.unwrap()[0] != t[7].1.0.unwrap()[0]);
    assert(t[5].0[0] != t[6].0[0]);
    assert(t[5].1.0.unwrap()[0] != t[6].1.0.unwrap()[0]);
    assert(t[5].0[0] != t[7].0[0]);
    assert(t[5].1.0.unwrap()[0] != t[7].1.0.unwrap()[0]);
    assert(t[6].0[0] != t[7].0[0]);
    assert(t[6].1.0.unwrap()[0] != t[7].1.0.unwrap()[0]);
}

/// Characters that end the leading token of a `not` axis.
pub open spec fn is_token_delimiter(c: char) -> bool {
    c == ' ' || c == ',' || c == ';' || c == '(' || c == '.'
}

/// `t` is the text of `s` before its first delimiter.
pub open spec fn is_leading_token(s: Seq<char>, t: Seq<char>) -> bool {
    &&& t.len() <= s.len()
    &&& s.subrange(0, t.len() as int) == t
    &&& forall|j: int| 0 <= j < t.len() ==> !is_token_delimiter(#[trigger] t[j])
    &&& (t.len() == s.len() || is_token_delimiter(s[t.len() as int]))
}

/// The `not` axis of every shipped contract opens with the wire key of another shipped group, so
/// it still reads correctly once the key is stripped; the two equivalence verdicts point at each
/// other.
pub proof fn lemma_every_not_names_a_sibling_first()
    ensures
        forall|i: int|
            0 <= i < shipped_contracts_spec().len() ==> exists|j: int|
                0 <= j < shipped_contracts_spec().len() && j != i && is_leading_token(
                    (#[trigger] shipped_contracts_spec()[i]).1.3.unwrap(),
                    shipped_contracts_spec()[j].0,
                ),
        is_leading_token(shipped_contracts_spec()[0].1.3.unwrap(), shipped_contracts_spec()[1].0),
        is_leading_token(shipped_contracts_spec()[1].1.3.unwrap(), shipped_contracts_spec()[0].0),
{
    reveal_strlit("silence-character class the production gate acted on: dropout vs mutual/program silence");
    reveal_strlit("scan-time gap: A's silent core, donor window = that core offset-mapped onto B");
    reveal_strlit("scan blocks of `scan_recipe.scan_block_ms`; noise floor = median over +/-2.0s context");
    reveal_strlit("equivalence_diagnostic (second opinion, gates nothing); not a seam or lag measurement");
    reveal_strlit("same classifier as equivalence_production, re-run from the fingerprint's own sensors");
    reveal_strlit("the scan verdict's own a_span_secs / donor_span_secs - adopted, not re-derived");
    reveal_strlit("scan blocks of `scan_recipe.scan_block_ms`; bin lattice phased differently than scan's");
    reveal_strlit("equivalence_production, the verdict skip_equivalent_gaps acts on; not a 'fine' reading of it");
    reveal_strlit("per-shoulder waveform lag the seam gate decides patch/skip on: peak_r, frac_lag_ms, peak_z, prominence");
    reveal_strlit("b_mapped nominal, not the throat; post shoulder centered sequentially on S + D_A + round(L_pre)");
    reveal_strlit("recorded per shoulder as window_ms / max_lag_ms (defaults 1000 / 600); mono; gross-relative to b_mapped_end");
    reveal_strlit("lag_editorial (Tier-3 diagnostic placement); never compare lag values across placements");
    reveal_strlit("same lag sweep as lag_decision but at a diagnostic placement; nothing gates, plans, or skips on it");
    reveal_strlit("best-energy editorial bracket / structure throat, which can sit far from the seam the seam gate scores");
    reveal_strlit("recorded per shoulder as window_ms / max_lag_ms; Tier-3, only with --fingerprint-diagnostics");
    reveal_strlit("lag_decision (the registration production acts on); this is not a refinement of it");
    reveal_strlit("B occupancy over the span a fill would take: rms_db, silence_fraction, longest_silence_ms, continuous");
    reveal_strlit("aligned bridge [b_mapped_start + L_pre, b_mapped_end + L_post) - each shoulder at its own lag");
    reveal_strlit("the bridge span itself; continuous = no sub-floor run longer than 150ms");
    reveal_strlit("donor_interior_nominal (registration-independent); this span carries the aliased-lag confound");
    reveal_strlit("is B quiet at the same program time as A's gap? silence_fraction ~1 => program-quiet, not a dropout");
    reveal_strlit("nominal b_mapped span with NO lag adjustment - registration-independent by construction");
    reveal_strlit("the nominal gap span; continuous = no sub-floor run longer than 150ms");
    reveal_strlit("donor_interior_aligned (the lag-adjusted bridge); silence here is not a fill failure");
    reveal_strlit("least-squares same-source cancellation depth, dB below the local floor - the strong confirm");
    reveal_strlit("the seam gate's structure throat (`gate_structure_align`), per shoulder - NOT b_mapped nominal");
    reveal_strlit("seam window = fill_seam_search_secs (default 250ms); a side is absent when it has no usable floor");
    reveal_strlit("seam_probe (Tier-3, gates nothing); deeper dB is better here - it is not a correlation");
    reveal_strlit("encoding-robust seam metrics (R2, R4, envelope, recovered lag, snr) - why a dead seam is dead");
    reveal_strlit("b_mapped, not the throat - so these do not compare against residual's numbers");
    reveal_strlit("10ms envelope bins; recovery +/-25ms pre and +/-max_lag_ms post, sequentially centered");
    reveal_strlit("residual (the seam gate's same-source confirm at the throat); no gate reads seam_probe");
    reveal_strlit("equivalence_production");
    reveal_strlit("equivalence_diagnostic");
    reveal_strlit("lag_decision");
    reveal_strlit("lag_editorial");
    reveal_strlit("donor_interior_aligned");
    reveal_strlit("donor_interior_nominal");
    reveal_strlit("residual");
    reveal_strlit("seam_probe");
    let t = shipped_contracts_spec();
    let w: Seq<int> = seq![1, 0, 3, 2, 5, 4, 7, 6];
    assert forall|i: int| 0 <= i < t.len() implies is_leading_token(
        (#[trigger] t[i]).1.3.unwrap(),
        t[w[i]].0,
    ) by {
        let s = t[i].1.3.unwrap();
        let k = t[w[i]].0;
        assert(s.subrange(0, k.len() as int) =~= k);
    }
    assert forall|i: int| 0 <= i < t.len() implies exists|j: int|
        0 <= j < t.len() && j != i && is_leading_token((#[trigger] t[i]).1.3.unwrap(), t[j].0) by {
        assert(is_leading_token(t[i].1.3.unwrap(), t[w[i]].0));
    }
}

/// An axis that is present and holds more than whitespace.
pub open spec fn axis_is_filled(a: Option<Seq<char>>) -> bool {
    a matches Some(t) && trim_spec(t).len() > 0
}

/// Every group that carries lag, donor, residual or seam-probe numbers ships a contract with all
/// four axes filled in.
pub proof fn lemma_every_measurement_group_ships_a_contract()
    ensures
        forall|i: int|
            0 <= i < shipped_contracts_spec().len() ==> axis_is_filled(
                (#[trigger] shipped_contracts_spec()[i]).1.0,
            ) && axis_is_filled(shipped_contracts_spec()[i].1.1) && axis_is_filled(
                shipped_contracts_spec()[i].1.2,
            ) && axis_is_filled(shipped_contracts_spec()[i].1.3),
        shipped_contracts_spec()[2].0 == "lag_decision"@,
        shipped_contracts_spec()[3].0 == "lag_editorial"@,
        shipped_contracts_spec()[4].0 == "donor_interior_aligned"@,
        shipped_contracts_spec()[5].0 == "donor_interior_nominal"@,
        shipped_contracts_spec()[6].0 == "residual"@,
        shipped_contracts_spec()[7].0 == "seam_probe"@,
{
    reveal_strlit("silence-character class the production gate acted on: dropout vs mutual/program silence");
    reveal_strlit("scan-time gap: A's silent core, donor window = that core offset-mapped onto B");
    reveal_strlit("scan blocks of `scan_recipe.scan_block_ms`; noise floor = median over +/-2.0s context");
    reveal_strlit("equivalence_diagnostic (second opinion, gates nothing); not a seam or lag measurement");
    reveal_strlit("same classifier as equivalence_production, re-run from the fingerprint's own sensors");
    reveal_strlit("the scan verdict's own a_span_secs / donor_span_secs - adopted, not re-derived");
    reveal_strlit("scan blocks of `scan_recipe.scan_block_ms`; bin lattice phased differently than scan's");
    reveal_strlit("equivalence_production, the verdict skip_equivalent_gaps acts on; not a 'fine' reading of it");
    reveal_strlit("per-shoulder waveform lag the seam gate decides patch/skip on: peak_r, frac_lag_ms, peak_z, prominence");
    reveal_strlit("b_mapped nominal, not the throat; post shoulder centered sequentially on S + D_A + round(L_pre)");
    reveal_strlit("recorded per shoulder as window_ms / max_lag_ms (defaults 1000 / 600); mono; gross-relative to b_mapped_end");
    reveal_strlit("lag_editorial (Tier-3 diagnostic placement); never compare lag values across placements");
    reveal_strlit("same lag sweep as lag_decision but at a diagnostic placement; nothing gates, plans, or skips on it");
    reveal_strlit("best-energy editorial bracket / structure throat, which can sit far from the seam the seam gate scores");
    reveal_strlit("recorded per shoulder as window_ms / max_lag_ms; Tier-3, only with --fingerprint-diagnostics");
    reveal_strlit("lag_decision (the registration production acts on); this is not a refinement of it");
    reveal_strlit("B occupancy over the span a fill would take: rms_db, silence_fraction, longest_silence_ms, continuous");
    reveal_strlit("aligned bridge [b_mapped_start + L_pre, b_mapped_end + L_post) - each shoulder at its own lag");
    reveal_strlit("the bridge span itself; continuous = no sub-floor run longer than 150ms");
    reveal_strlit("donor_interior_nominal (registration-independent); this span carries the aliased-lag confound");
    reveal_strlit("is B quiet at the same program time as A's gap? silence_fraction ~1 => program-quiet, not a dropout");
    reveal_strlit("nominal b_mapped span with NO lag adjustment - registration-independent by construction");
    reveal_strlit("the nominal gap span; continuous = no sub-floor run longer than 150ms");
    reveal_strlit("donor_interior_aligned (the lag-adjusted bridge); silence here is not a fill failure");
    reveal_strlit("least-squares same-source cancellation depth, dB below the local floor - the strong confirm");
    reveal_strlit("the seam gate's structure throat (`gate_structure_align`), per shoulder - NOT b_mapped nominal");
    reveal_strlit("seam window = fill_seam_search_secs (default 250ms); a side is absent when it has no usable floor");
    reveal_strlit("seam_probe (Tier-3, gates nothing); deeper dB is better here - it is not a correlation");
    reveal_strlit("encoding-robust seam metrics (R2, R4, envelope, recovered lag, snr) - why a dead seam is dead");
    reveal_strlit("b_mapped, not the throat - so these do not compare against residual's numbers");
    reveal_strlit("10ms envelope bins; recovery +/-25ms pre and +/-max_lag_ms post, sequentially centered");
    reveal_strlit("residual (the seam gate's same-source confirm at the throat); no gate reads seam_probe");
    reveal_strlit("equivalence_production");
    reveal_strlit("equivalence_diagnostic");
    reveal_strlit("lag_decision");
    reveal_strlit("lag_editorial");
    reveal_strlit("donor_interior_aligned");
    reveal_strlit("donor_interior_nominal");
    reveal_strlit("residual");
    reveal_strlit("seam_probe");
    let t = shipped_contracts_spec();
    assert forall|i: int| 0 <= i < t.len() implies axis_is_filled((#[trigger] t[i]).1.0)
        && axis_is_filled(t[i].1.1) && axis_is_filled(t[i].1.2) && axis_is_filled(t[i].1.3) by {
        lemma_trim_keeps_nonblank_head(t[i].1.0.unwrap());
        lemma_trim_keeps_nonblank_head(t[i].1.1.unwrap());
        lemma_trim_keeps_nonblank_head(t[i].1.2.unwrap());
        lemma_trim_keeps_nonblank_head(t[i].1.3.unwrap());
    }
    assert(t[2].0 == "lag_decision"@);
    assert(t[3].0 == "lag_editorial"@);
    assert(t[4].0 == "donor_interior_aligned"@);
    assert(t[5].0 == "donor_interior_nominal"@);
    assert(t[6].0 == "residual"@);
    assert(t[7].0 == "seam_probe"@);
}

} // verus!
