use clip_sync_repair::contract::{
    equivalence_diagnostic_contract, equivalence_production_contract, shipped_contracts, stamp,
    Contracted, MetricContract, CONTRACT_MAX_LEN,
};

fn shipped(group: &str) -> MetricContract {
    shipped_contracts()
        .into_iter()
        .find(|(g, _)| g == group)
        .map(|(_, c)| c)
        .unwrap_or_else(|| panic!("{group} is not a shipped contract"))
}

#[test]
fn shipped_contracts_are_within_the_length_cap() {
    let all = shipped_contracts();
    assert!(!all.is_empty(), "registry lost its entries");
    for (group, c) in &all {
        assert!(
            c.within_length_cap(),
            "{group} contract exceeds {CONTRACT_MAX_LEN} chars: {c:?}"
        );
    }
}

#[test]
fn no_two_shipped_contracts_are_identical() {
    let all = shipped_contracts();
    for (i, (group, c)) in all.iter().enumerate() {
        for (other, o) in &all[i + 1..] {
            assert_ne!(c, o, "{group} and {other} ship identical contract text");
            assert_ne!(group, other, "{group} is registered twice");
        }
    }
}

#[test]
fn every_not_names_a_sibling_first() {
    let all = shipped_contracts();
    let keys: Vec<&str> = all.iter().map(|(g, _)| g.as_str()).collect();
    for (group, c) in &all {
        let not = c
            .not
            .as_deref()
            .unwrap_or_else(|| panic!("{group}: no not"));
        let head = not.split([' ', ',', ';', '(', '.']).next().unwrap_or("");
        assert!(
            keys.contains(&head),
            "{group}: `not` must open with a sibling wire key, got {head:?} in {not:?}"
        );
        assert_ne!(head, group.as_str(), "{group}: `not` points at itself");
    }
}

#[test]
fn every_c2_group_ships_a_contract() {
    for key in [
        "lag_decision",
        "lag_editorial",
        "donor_interior_aligned",
        "donor_interior_nominal",
        "residual",
        "seam_probe",
    ] {
        let c = shipped(key);
        for (axis, text) in [
            ("measures", &c.measures),
            ("placement", &c.placement),
            ("window", &c.window),
            ("not", &c.not),
        ] {
            assert!(
                text.as_deref().is_some_and(|s| !s.trim().is_empty()),
                "{key}: `{axis}` is empty — all four axes are the contract"
            );
        }
    }
}

#[test]
fn the_two_equivalence_contracts_are_distinct() {
    assert_ne!(
        equivalence_production_contract(),
        equivalence_diagnostic_contract()
    );
    assert_ne!(
        equivalence_production_contract().placement,
        equivalence_diagnostic_contract().placement
    );
}

#[test]
fn equivalence_pair_points_at_each_other() {
    let prod = equivalence_production_contract();
    let diag = equivalence_diagnostic_contract();
    assert!(prod.not.as_deref().unwrap().starts_with("equivalence_diagnostic"));
    assert!(diag.not.as_deref().unwrap().starts_with("equivalence_production"));
}

#[test]
fn length_cap_counts_characters_per_axis() {
    let at_cap = MetricContract {
        measures: Some("x".repeat(CONTRACT_MAX_LEN)),
        placement: None,
        window: Some("é".repeat(CONTRACT_MAX_LEN)),
        not: None,
    };
    assert!(at_cap.within_length_cap());
    let over = MetricContract {
        measures: None,
        placement: Some("y".repeat(CONTRACT_MAX_LEN + 1)),
        window: None,
        not: None,
    };
    assert!(!over.within_length_cap());
    assert!(MetricContract::default().within_length_cap());
}

#[test]
fn stamp_wraps_a_present_value_and_keeps_absence() {
    let c = equivalence_production_contract();
    let stamped = stamp(Some(7u32), c.clone()).expect("present value is stamped");
    assert_eq!(stamped.value, 7);
    assert_eq!(*stamped, 7);
    assert_eq!(stamped.contract, Some(c.clone()));
    assert!(stamp::<u32>(None, c.clone()).is_none());
    let direct = Contracted::new(7u32, c.clone());
    assert_eq!(direct.value, 7);
    assert_eq!(direct.contract, Some(c));
}

#[test]
fn contract_quotes_the_constants_it_describes() {
    let prod = equivalence_production_contract();
    assert!(prod.window.as_deref().is_some_and(|w| w.contains("+/-2.0s")));
    for key in ["donor_interior_aligned", "donor_interior_nominal"] {
        assert!(shipped(key).window.as_deref().is_some_and(|w| w.contains("150ms")));
    }
    let probe = shipped("seam_probe");
    let w = probe.window.as_deref().unwrap();
    assert!(w.contains("10ms") && w.contains("+/-25ms"));
}
