use fib_progress::progress::{
    count_filled_segments, count_percent_hundredths, progress_bar, scale_to_parts, state_glyph,
    ProgressSnapshot, COMPLETE_GLYPH, FULL_PERCENT,
};

#[test]
fn nothing_done_fills_no_segment() {
    assert_eq!(count_filled_segments(0, 10, 10), 0);
    assert_eq!(
        progress_bar(0, 10, 10, "working"),
        "\r[----------] 0.00% 0 / 10 / working"
    );
}

#[test]
fn all_done_fills_every_segment_and_shows_the_complete_glyph() {
    assert_eq!(count_filled_segments(10, 10, 10), 10);
    assert_eq!(state_glyph(10, 10), COMPLETE_GLYPH);
    assert_eq!(COMPLETE_GLYPH, '\u{2713}');
    assert_eq!(
        progress_bar(10, 10, 10, "working"),
        "\r[##########] 100.00% 10 / 10 \u{2713} working\n"
    );
}

#[test]
fn complete_glyph_is_not_a_spinner_glyph() {
    for glyph in ['/', '-', '\\', '|'] {
        assert_ne!(glyph, COMPLETE_GLYPH);
    }
    // 8 is a multiple of four, yet complete: the spinner does not show.
    assert_eq!(state_glyph(8, 8), COMPLETE_GLYPH);
}

#[test]
fn spinner_turns_in_four_phases() {
    assert_eq!(state_glyph(0, 100), '/');
    assert_eq!(state_glyph(1, 100), '-');
    assert_eq!(state_glyph(2, 100), '\\');
    assert_eq!(state_glyph(3, 100), '|');
    assert_eq!(state_glyph(4, 100), '/');
    assert_eq!(state_glyph(99, 100), '|');
}

#[test]
fn filled_segments_round_down() {
    assert_eq!(count_filled_segments(1, 3, 50), 16);
    assert_eq!(count_filled_segments(2, 3, 50), 33);
    assert_eq!(count_filled_segments(54, 55, 50), 49);
    assert_eq!(count_filled_segments(1, 55, 50), 0);
    assert_eq!(count_filled_segments(5, 10, 0), 0);
}

#[test]
fn percent_in_hundredths() {
    assert_eq!(FULL_PERCENT, 10000);
    assert_eq!(count_percent_hundredths(0, 7), 0);
    assert_eq!(count_percent_hundredths(1, 3), 3333);
    assert_eq!(count_percent_hundredths(1, 8), 1250);
    assert_eq!(count_percent_hundredths(7, 7), 10000);
}

#[test]
fn half_way_line() {
    assert_eq!(
        progress_bar(5, 10, 10, "calculating fibonacci recursively"),
        "\r[#####-----] 50.00% 5 / 10 - calculating fibonacci recursively"
    );
    assert_eq!(
        progress_bar(1, 3, 6, ""),
        "\r[##----] 33.33% 1 / 3 - "
    );
}

#[test]
fn scaling_is_exact_where_the_product_overflows() {
    let half: u128 = 1u128 << 127;
    assert_eq!(scale_to_parts(half, half + 1, 10), 9);
    assert_eq!(scale_to_parts(half, u128::MAX, 10), 5);
    assert_eq!(scale_to_parts(u128::MAX - 1, u128::MAX, 1000), 999);
    assert_eq!(scale_to_parts(u128::MAX, u128::MAX, 1000), 1000);
    assert_eq!(scale_to_parts(u128::MAX / 3, u128::MAX, 10000), 3333);
}

#[test]
fn snapshot_needs_a_maximum_and_a_count_within_it() {
    assert_eq!(ProgressSnapshot::new(0, 0), None);
    assert_eq!(ProgressSnapshot::new(11, 10), None);
    assert_eq!(
        ProgressSnapshot::new(3, 10),
        Some(ProgressSnapshot { current: 3, maximum: 10 })
    );
}

#[test]
fn snapshot_draws_its_line() {
    let snapshot = ProgressSnapshot::new(55, 55).unwrap();
    assert!(snapshot.is_complete());
    assert_eq!(
        snapshot.render(5, "done"),
        "\r[#####] 100.00% 55 / 55 \u{2713} done\n"
    );
    let snapshot = ProgressSnapshot::new(21, 55).unwrap();
    assert!(!snapshot.is_complete());
    assert_eq!(snapshot.render(5, "busy"), "\r[#----] 38.18% 21 / 55 - busy");
}
