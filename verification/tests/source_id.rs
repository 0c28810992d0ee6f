use clip_sync_repair::source_id::{fnv_feed, le_bytes_of, source_id, FNV_OFFSET_BASIS};

/// Deterministic PRNG noise sample in [-1, 1).
fn noise(seed: u64, i: usize) -> f64 {
    let mut z = ((seed << 32) | (i as u64 & 0xffff_ffff)).wrapping_add(0x9E37_79B9_7F4A_7C15);
    z = (z ^ (z >> 30)).wrapping_mul(0xBF58_476D_1CE4_E5B9);
    z = (z ^ (z >> 27)).wrapping_mul(0x94D0_49BB_1331_11EB);
    z ^= z >> 31;
    ((z >> 40) as f64 / (1u64 << 24) as f64) * 2.0 - 1.0
}

fn bits(samples: &[f32]) -> Vec<u32> {
    samples.iter().map(|s| s.to_bits()).collect()
}

fn check_stable_and_distinguishing() {
    let a: Vec<f32> = (0..10_000).map(|i| noise(7, i) as f32).collect();
    let b: Vec<f32> = (0..10_000).map(|i| noise(8, i) as f32).collect();
    let (a, b) = (bits(&a), bits(&b));
    assert_eq!(source_id(&a, 48_000, 2), source_id(&a, 48_000, 2), "deterministic");
    assert_eq!(source_id(&a, 48_000, 2).len(), 16, "16 hex chars");
    assert_ne!(source_id(&a, 48_000, 2), source_id(&b, 48_000, 2), "different audio → different id");
    assert_ne!(source_id(&a, 48_000, 2), source_id(&a, 44_100, 2), "sample rate is part of identity");
    assert_ne!(source_id(&a, 48_000, 2), source_id(&a, 48_000, 6), "channels are part of identity");
}

#[test]
fn schema_source_id_stable_and_distinguishing() {
    check_stable_and_distinguishing();
}

#[test]
fn gap_fingerprint_source_id_stable_and_distinguishing() {
    check_stable_and_distinguishing();
}

#[test]
fn source_id_is_fnv1a_over_the_layout_and_samples() {
    assert_eq!(source_id(&[], 48_000, 2), "4061fe520adc353e");
    assert_eq!(source_id(&[1.0f32.to_bits()], 48_000, 2), "6711307c13e9343e");
}

#[test]
fn source_id_strides_long_inputs() {
    // 400 001 samples ⇒ stride 2: every other sample is digested.
    let long: Vec<u32> = (0..400_001u32).collect();
    assert_eq!(source_id(&long, 48_000, 2), "1458dd007845f3ff");
    assert_eq!(source_id(&long, 44_100, 1), "e51e4bfeb526cd95");
    // An odd-indexed sample is skipped, so changing it leaves the id alone…
    let mut skipped = long.clone();
    skipped[1] = 99;
    assert_eq!(source_id(&skipped, 48_000, 2), "1458dd007845f3ff");
    // …while an even-indexed one is part of the identity.
    let mut digested = long;
    digested[2] = 99;
    assert_ne!(source_id(&digested, 48_000, 2), "1458dd007845f3ff");
}

#[test]
fn fnv_feed_of_nothing_keeps_the_state() {
    let mut h = FNV_OFFSET_BASIS;
    fnv_feed(&mut h, &[]);
    assert_eq!(h, FNV_OFFSET_BASIS);
    // The published FNV-1a 64 digest of "a".
    fnv_feed(&mut h, b"a");
    assert_eq!(h, 0xaf63dc4c8601ec8c);
}

#[test]
fn le_bytes_are_least_significant_first() {
    assert_eq!(le_bytes_of(0x1122_3344_5566_7788, 8), vec![0x88, 0x77, 0x66, 0x55, 0x44, 0x33, 0x22, 0x11]);
    assert_eq!(le_bytes_of(48_000, 4), 48_000u32.to_le_bytes().to_vec());
    assert_eq!(le_bytes_of(0xffff_ffff, 2), vec![0xff, 0xff]);
    assert!(le_bytes_of(5, 0).is_empty());
}
