//! The decisions of a `--gap-listen` run: which gaps it characterizes, when it warns, which
//! frames each listening clip covers, and what it does with each gap once the patch has run.

use vstd::prelude::*;
use vstd::set_lib::{lemma_int_range, lemma_len_subset, lemma_subset_equality, set_int_range};

verus! {

/// Gap count above which an unbounded listen run gets a warning before it starts working.
pub const UNBOUNDED_LISTEN_WARN_GAPS: usize = 25usize;

/// `std::path::PathBuf`, carried through unchanged.
#[verifier::external_type_specification]
#[verifier::external_body]
pub struct ExPathBuf(std::path::PathBuf);

/// Where a listen run puts things, plus the dump settings it shares with `--gap-fingerprints`.
pub struct GapListenRequest {
    pub fingerprint_dir: std::path::PathBuf,
    pub wav_dir: std::path::PathBuf,
    pub fingerprint_diagnostics: bool,
    pub crossfade_ms: u64,
}

/// A half-open window over an interleaved buffer, in frames (never samples).
#[derive(Debug, Clone, Copy, PartialEq, Eq, Structural)]
pub struct FrameRange {
    pub start: usize,
    pub end: usize,
}

impl FrameRange {
    /// The number of frames covered; an inverted range covers none.
    pub fn len(self) -> (r: usize)
        ensures
            r == (if self.end >= self.start { self.end - self.start } else { 0 }),
    {
        self.end.saturating_sub(self.start)
    }

    /// Does the range cover no frame?
    pub fn is_empty(self) -> (r: bool)
        ensures
            r <==> self.end <= self.start,
    {
        self.len() == 0
    }
}

/// Clamp a requested `[start_frame, end_frame)` (already floored and ceiled from seconds) to a
/// buffer of `total_frames`: both ends saturate at the buffer end, and the end never falls
/// before the start.
pub fn clamp_frame_range(start_frame: usize, end_frame: usize, total_frames: usize) -> (r:
    FrameRange)
    ensures
        r.start == (if start_frame < total_frames { start_frame } else { total_frames }),
        r.end == (if end_frame < total_frames { if end_frame > r.start { end_frame } else { r.start } }
        else { total_frames }),
        r.start <= r.end <= total_frames,
{
    let start = if start_frame < total_frames { start_frame } else { total_frames };
    let end_cut = if end_frame < total_frames { end_frame } else { total_frames };
    let end = if end_cut > start { end_cut } else { start };
    FrameRange { start, end }
}

/// The frame bounds a window over `sample_count` interleaved samples of `channels` channels (a
/// zero count taken as 1) actually copies: the range's start and end cut to the whole frames
/// present, the end never before the start.
pub open spec fn window_frames(sample_count: nat, channels: u16, range: FrameRange) -> (nat, nat) {
    let ch: nat = if channels == 0 { 1 } else { channels as nat };
    let total = sample_count / ch;
    let start: nat = if range.start < total { range.start as nat } else { total };
    let end: nat = if range.end < start { start } else if range.end > total { total } else {
        range.end as nat
    };
    (start, end)
}

/// Copy one frame window out of an interleaved buffer: the samples of frames
/// [`window_frames`]`.0 .. .1`, in order. `channels` must be the buffer's own channel count.
pub fn slice_frames<T: Copy>(samples: &[T], channels: u16, range: FrameRange) -> (r: Vec<T>)
    ensures
        ({
            let ch: int = if channels == 0 { 1 } else { channels as int };
            let (s, e) = window_frames(samples@.len(), channels, range);
            r@ == samples@.subrange(s * ch, e * ch)
        }),
{
    let ch: usize = if channels == 0 { 1 } else { channels as usize };
    let total = samples.len() / ch;
    let start = if range.start < total { range.start } else { total };
    let end = if range.end < start { start } else if range.end > total { total } else { range.end };
    proof {
        assert(total * ch <= samples.len()) by (nonlinear_arith)
            requires
                total == samples.len() / ch,
                ch > 0,
        ;
        assert(start * ch <= end * ch <= total * ch) by (nonlinear_arith)
            requires
                start <= end <= total,
        ;
    }
    let lo = start * ch;
    let hi = end * ch;
    let mut r: Vec<T> = Vec::new();
    let mut i: usize = lo;
    while i < hi
        invariant
            lo <= i <= hi <= samples@.len(),
            r@ == samples@.subrange(lo as int, i as int),
        decreases hi - i,
    {
        r.push(samples[i]);
        i = i + 1;
        assert(r@ =~= samples@.subrange(lo as int, i as int));
    }
    r
}

/// Does a listen run over `selected` gaps warn before it starts? Only an unusually large
/// selection does: it costs three clips and a production characterize per gap.
pub fn listen_warns(selected: usize) -> (r: bool)
    ensures
        r <==> selected > UNBOUNDED_LISTEN_WARN_GAPS,
{
    selected > UNBOUNDED_LISTEN_WARN_GAPS
}

/// The gap selection handed to fingerprint characterization: empty (meaning "all") when every
/// one of the `gap_count` gaps is selected, else the selection itself.
pub fn fingerprint_selection(select: &[usize], gap_count: usize) -> (r: Vec<usize>)
    ensures
        select@.len() == gap_count ==> r@.len() == 0,
        select@.len() != gap_count ==> r@ == select@,
{
    if select.len() == gap_count {
        Vec::new()
    } else {
        let mut r: Vec<usize> = Vec::new();
        let mut i: usize = 0;
        while i < select.len()
            invariant
                i <= select@.len(),
                r@ == select@.subrange(0, i as int),
            decreases select.len() - i,
        {
            r.push(select[i]);
            i = i + 1;
            assert(r@ =~= select@.subrange(0, i as int));
        }
        assert(select@.subrange(0, i as int) =~= select@);
        r
    }
}

/// Is gap `index` characterized under `select`? An empty selection means every gap.
pub open spec fn selects(select: Seq<usize>, index: usize) -> bool {
    select.len() == 0 || select.contains(index)
}

/// The characterization filter: gap `index` is characterized when the selection is empty
/// (meaning every gap) or names it.
pub fn gap_selected(select: &[usize], index: usize) -> (r: bool)
    ensures
        r == selects(select@, index),
{
    if select.len() == 0 {
        return true;
    }
    let mut i: usize = 0;
    while i < select.len()
        invariant
            i <= select@.len(),
            forall|j: int| 0 <= j < i ==> select@[j] != index,
        decreases select.len() - i,
    {
        if select[i] == index {
            assert(select@[i as int] == index);
            return true;
        }
        i = i + 1;
    }
    false
}

/// Handing characterization the empty ("every gap") selection in place of a full one loses no
/// gap: a selection of `gap_count` distinct valid gap indices already names every gap.
pub proof fn lemma_full_selection_names_every_gap(select: Seq<usize>, gap_count: nat)
    requires
        select.len() == gap_count,
        select.no_duplicates(),
        forall|i: int| 0 <= i < select.len() ==> #[trigger] select[i] < gap_count,
    ensures
        forall|g: usize| g < gap_count ==> select.contains(g),
        forall|g: usize|
            g < gap_count ==> #[trigger] selects(select, g) == selects(Seq::empty(), g),
{
    let s = select.map_values(|x: usize| x as int);
    assert(s.no_duplicates()) by {
        assert forall|i: int, j: int| 0 <= i < s.len() && 0 <= j < s.len() && i != j implies s[i]
            != s[j] by {
            assert(select[i] != select[j]);
        }
    }
    s.unique_seq_to_set();
    let ss = s.to_set();
    let range = set_int_range(0, gap_count as int);
    lemma_int_range(0, gap_count as int);
    assert(ss.subset_of(range)) by {
        assert forall|x: int| ss.contains(x) implies range.contains(x) by {
            assert(s.contains(x));
            let i = choose|i: int| 0 <= i < s.len() && s[i] == x;
            assert(select[i] < gap_count);
        }
    }
    lemma_len_subset(ss, range);
    lemma_subset_equality(ss, range);
    assert forall|g: usize| g < gap_count implies select.contains(g) by {
        assert(range.contains(g as int));
        assert(ss.contains(g as int));
        assert(s.contains(g as int));
        let i = choose|i: int| 0 <= i < s.len() && s[i] == g as int;
        assert(select[i] == g);
    }
}

/// Does a listen dump over `selected` of `gap_count` gaps cover only part of the pair (and so
/// must say it is not the corpus of record)?
pub fn is_partial_dump(selected: usize, gap_count: usize) -> (r: bool)
    ensures
        r <==> selected < gap_count,
{
    selected < gap_count
}

/// How the production patch left one gap.
#[derive(Debug, Clone, Copy, PartialEq, Eq, Structural)]
pub enum GapPatchStatusKind {
    Patched,
    Skipped,
    NotPlanned,
    NotApplied,
}

/// What a listen run does with one exported gap once the patch has run.
#[derive(Debug, Clone, Copy, PartialEq, Eq, Structural)]
pub enum PatchedWindowAction {
    /// Write the patched clip; the A window changed across the splice.
    WritePatched,
    /// Write the patched clip, and warn: the gap reports patched but its A window is
    /// byte-identical before and after.
    WritePatchedUnchanged,
    /// The production gate refused the gap: report its reason, write no clip.
    ReportRefused,
    /// The gap was planned but came back not-planned: report it, write no clip.
    ReportPlannedNotPlanned,
    /// The gap was dropped at plan time and already reported then: say nothing more.
    Quiet,
    /// Approved but not applied: warn that A is unchanged, write no clip.
    WarnNotApplied,
    /// The patch reported nothing for this gap: report it, write no clip.
    ReportNoOutcome,
}

/// The post-patch action for one exported gap (see [`PatchedWindowAction`]), from its patch
/// status, whether it reached the fill plan, and whether its A window digest is unchanged by
/// the splice (read only for a patched gap).
pub open spec fn patched_window_action_spec(
    status: Option<GapPatchStatusKind>,
    planned: bool,
    window_unchanged: bool,
) -> PatchedWindowAction {
    match status {
        Some(GapPatchStatusKind::Patched) => if window_unchanged {
            PatchedWindowAction::WritePatchedUnchanged
        } else {
            PatchedWindowAction::WritePatched
        },
        Some(GapPatchStatusKind::Skipped) => PatchedWindowAction::ReportRefused,
        Some(GapPatchStatusKind::NotPlanned) => if planned {
            PatchedWindowAction::ReportPlannedNotPlanned
        } else {
            PatchedWindowAction::Quiet
        },
        Some(GapPatchStatusKind::NotApplied) => PatchedWindowAction::WarnNotApplied,
        None => PatchedWindowAction::ReportNoOutcome,
    }
}

/// The post-patch action for one exported gap. A patched clip is written only for a gap the
/// production engine reports patched; no fill is ever invented for any other status.
pub fn patched_window_action(
    status: Option<GapPatchStatusKind>,
    planned: bool,
    pre_digest: u64,
    post_digest: u64,
) -> (r: PatchedWindowAction)
    ensures
        r == patched_window_action_spec(status, planned, pre_digest == post_digest),
        (r == PatchedWindowAction::WritePatched || r == PatchedWindowAction::WritePatchedUnchanged)
            <==> status == Some(GapPatchStatusKind::Patched),
{
    match status {
        Some(GapPatchStatusKind::Patched) => if pre_digest == post_digest {
            PatchedWindowAction::WritePatchedUnchanged
        } else {
            PatchedWindowAction::WritePatched
        },
        Some(GapPatchStatusKind::Skipped) => PatchedWindowAction::ReportRefused,
        Some(GapPatchStatusKind::NotPlanned) => if planned {
            PatchedWindowAction::ReportPlannedNotPlanned
        } else {
            PatchedWindowAction::Quiet
        },
        Some(GapPatchStatusKind::NotApplied) => PatchedWindowAction::WarnNotApplied,
        None => PatchedWindowAction::ReportNoOutcome,
    }
}

} // verus!
