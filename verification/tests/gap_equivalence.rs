use clip_sync_repair::gap_equivalence::{block_grid_bins, tile_bins};

#[test]
fn block_grid_is_phase_locked_to_the_media_not_the_gap() {
    // Bin = 100 frames. Centres sit at 50, 150, 250, … Gap [120, 320) captures 150 and 250.
    let bins = block_grid_bins(120..320, 100, 10_000);
    assert_eq!(bins, vec![100..200, 200..300], "{bins:?}");
    // The same 200-frame width one bin later captures two different centres, still two blocks.
    let bins = block_grid_bins(220..420, 100, 10_000);
    assert_eq!(bins, vec![200..300, 300..400], "{bins:?}");
}

#[test]
fn block_grid_blocks_are_whole_even_when_they_overrun_the_gap_edge() {
    let bins = block_grid_bins(140..260, 100, 10_000);
    assert_eq!(bins, vec![100..200, 200..300], "{bins:?}");
}

#[test]
fn block_grid_has_no_trailing_partial_bin() {
    // [0, 250) with bin 100: centres 50 and 150 are in, 250 is not.
    let bins = block_grid_bins(0..250, 100, 10_000);
    assert_eq!(bins, vec![0..100, 100..200], "{bins:?}");
}

#[test]
fn block_grid_handles_subbin_gaps() {
    assert_eq!(block_grid_bins(40..60, 100, 10_000), vec![0..100]);
    assert!(block_grid_bins(60..90, 100, 10_000).is_empty());
    assert!(block_grid_bins(500..500, 100, 10_000).is_empty());
}

#[test]
fn block_grid_clamps_the_last_block_to_the_track_end() {
    // Centre 250 is inside the gap, but the track ends at 260: the block is cut there.
    assert_eq!(block_grid_bins(200..300, 100, 260), vec![200..260]);
    // A block that would start at or past the track end is dropped.
    assert!(block_grid_bins(300..400, 100, 300).is_empty());
}

#[test]
fn block_grid_treats_a_zero_bin_as_one_frame() {
    assert_eq!(block_grid_bins(3..6, 0, 100), vec![3..4, 4..5, 5..6]);
}

#[test]
fn block_grid_inverted_gap_is_empty() {
    assert!(block_grid_bins(300..100, 100, 10_000).is_empty());
}

#[test]
fn tile_bins_tiles_from_the_span_start_with_a_short_last_bin() {
    assert_eq!(tile_bins(120..370, 100, 10_000), vec![120..220, 220..320, 320..370]);
    assert_eq!(tile_bins(0..200, 100, 10_000), vec![0..100, 100..200]);
}

#[test]
fn tile_bins_clamps_to_the_track_and_empties_cleanly() {
    assert_eq!(tile_bins(50..500, 100, 180), vec![50..150, 150..180]);
    assert!(tile_bins(50..50, 100, 1000).is_empty());
    assert!(tile_bins(200..100, 100, 1000).is_empty());
    assert!(tile_bins(500..600, 100, 400).is_empty());
    assert_eq!(tile_bins(0..3, 0, 10), vec![0..1, 1..2, 2..3]);
}
