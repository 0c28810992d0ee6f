//! Pure fit-joint routing decisions: which candidate confidence may terminate routing, and which
//! is accepted without the boundary grid.

use vstd::prelude::*;

verus! {

/// Pearson-based confidence class of one fill candidate.
#[derive(Debug, Clone, Copy, PartialEq, Eq, Structural)]
pub enum FillConfidence {
    High,
    Marginal,
    Low,
}

/// How far the boundary search is allowed to go.
#[derive(Debug, Clone, Copy, PartialEq, Eq, Structural)]
pub enum FitBoundarySearch {
    /// Score the baseline placement only.
    BaselineOnly,
    /// Also sweep the full boundary grid.
    FullGrid,
}

/// E1/E3/E6 screen: only a `High` candidate may terminate routing.
pub open spec fn spec_terminates_high(confidence: FillConfidence) -> bool {
    confidence == FillConfidence::High
}

/// E2/E4: under `BaselineOnly`, `High` and `Marginal` are accepted without the grid.
pub open spec fn spec_baseline_only_accepts(
    search: FitBoundarySearch,
    confidence: FillConfidence,
) -> bool {
    search == FitBoundarySearch::BaselineOnly && (confidence == FillConfidence::High || confidence
        == FillConfidence::Marginal)
}

/// A `High` candidate may terminate routing immediately, in any boundary-search mode.
pub fn terminates_high(confidence: FillConfidence) -> (r: bool)
    ensures
        r == spec_terminates_high(confidence),
{
    confidence == FillConfidence::High
}

/// Under `BaselineOnly`, a `High` or `Marginal` candidate is accepted without the grid.
pub fn baseline_only_accepts(search: FitBoundarySearch, confidence: FillConfidence) -> (r: bool)
    ensures
        r == spec_baseline_only_accepts(search, confidence),
{
    search == FitBoundarySearch::BaselineOnly && (confidence == FillConfidence::High || confidence
        == FillConfidence::Marginal)
}

/// Any candidate that may terminate routing is also accepted without the grid under
/// `BaselineOnly`; under `FullGrid` nothing is accepted without the grid; and a `Marginal`
/// candidate never terminates routing on its own.
pub proof fn lemma_routing_screens_are_nested(c: FillConfidence)
    ensures
        spec_terminates_high(c) ==> spec_baseline_only_accepts(FitBoundarySearch::BaselineOnly, c),
        !spec_baseline_only_accepts(FitBoundarySearch::FullGrid, c),
        !spec_terminates_high(FillConfidence::Marginal),
{
}

} // verus!
