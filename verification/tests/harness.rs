use mean_bench::strategy::{
    group_split, select_strategy, sweep_sizes, MeanStrategy, GROUP_WIDTH, WARMUP_RUNS,
};

#[test]
fn short_buffer_is_all_remainder() {
    assert_eq!(group_split(5), (0, 5));
    assert_eq!(group_split(7), (0, 7));
    assert_eq!(group_split(1), (0, 1));
}

#[test]
fn exact_multiple_has_no_remainder() {
    assert_eq!(group_split(8), (1, 0));
    assert_eq!(group_split(16), (2, 0));
    assert_eq!(group_split(0), (0, 0));
}

#[test]
fn groups_and_remainder_cover_buffer() {
    let (groups, rem) = group_split(21);
    assert_eq!((groups, rem), (2, 5));
    assert_eq!(GROUP_WIDTH * groups + rem, 21);
}

#[test]
fn selector_uses_wide_path_only_with_feature() {
    assert_eq!(select_strategy(true, true), MeanStrategy::WideVector);
    assert_eq!(select_strategy(true, false), MeanStrategy::Scalar);
    assert_eq!(select_strategy(false, true), MeanStrategy::Chunked);
    assert_eq!(select_strategy(false, false), MeanStrategy::Chunked);
}

#[test]
fn sweep_covers_the_five_fixed_sizes() {
    assert_eq!(sweep_sizes(), vec![500, 1000, 50000, 1000000, 100000000]);
}

#[test]
fn three_warmup_runs() {
    assert_eq!(WARMUP_RUNS, 3);
}
