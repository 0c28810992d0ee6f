use clip_sync_repair::fit_routing::{
    baseline_only_accepts, terminates_high, FillConfidence, FitBoundarySearch,
};

#[test]
fn high_screens_in_any_mode() {
    assert!(terminates_high(FillConfidence::High));
    // A High baseline short-circuits even with the grid enabled.
    assert!(baseline_only_accepts(FitBoundarySearch::BaselineOnly, FillConfidence::High));
    assert!(!baseline_only_accepts(FitBoundarySearch::FullGrid, FillConfidence::High));
}

#[test]
fn marginal_accepts_only_under_baseline_only() {
    assert!(baseline_only_accepts(
        FitBoundarySearch::BaselineOnly,
        FillConfidence::Marginal
    ));
    assert!(!baseline_only_accepts(
        FitBoundarySearch::FullGrid,
        FillConfidence::Marginal
    ));
    assert!(!terminates_high(FillConfidence::Marginal));
}

#[test]
fn composed_baseline_high_short_circuits_before_anchor() {
    assert!(terminates_high(FillConfidence::High));
}

#[test]
fn composed_dead_zone_baseline_does_not_screen_or_accept() {
    assert!(!terminates_high(FillConfidence::Marginal));
    assert!(!baseline_only_accepts(FitBoundarySearch::FullGrid, FillConfidence::Marginal));
    assert!(terminates_high(FillConfidence::High));
}

#[test]
fn low_confidence_never_screens_or_accepts() {
    assert!(!terminates_high(FillConfidence::Low));
    assert!(!baseline_only_accepts(FitBoundarySearch::BaselineOnly, FillConfidence::Low));
    assert!(!baseline_only_accepts(FitBoundarySearch::FullGrid, FillConfidence::Low));
}

#[test]
fn every_terminating_candidate_is_also_accepted_under_baseline_only() {
    for c in [FillConfidence::High, FillConfidence::Marginal, FillConfidence::Low] {
        if terminates_high(c) {
            assert!(baseline_only_accepts(FitBoundarySearch::BaselineOnly, c));
        }
        assert!(!baseline_only_accepts(FitBoundarySearch::FullGrid, c));
    }
}
