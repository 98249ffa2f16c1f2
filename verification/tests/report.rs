use mean_bench::label::{dec_string, format_size};
use mean_bench::speedup::{format_speedup, speedup_centi};

#[test]
fn size_label_plain() {
    assert_eq!(format_size(500), "500");
    assert_eq!(format_size(0), "0");
    assert_eq!(format_size(999), "999");
}

#[test]
fn size_label_thousands() {
    assert_eq!(format_size(1000), "1K");
    assert_eq!(format_size(50000), "50K");
    assert_eq!(format_size(999999), "999K");
}

#[test]
fn size_label_millions() {
    assert_eq!(format_size(1000000), "1M");
    assert_eq!(format_size(100000000), "100M");
}

#[test]
fn size_label_truncates_non_exact_multiples() {
    assert_eq!(format_size(1500000), "1M");
    assert_eq!(format_size(1500), "1K");
}

#[test]
fn decimal_rendering() {
    assert_eq!(dec_string(0), "0");
    assert_eq!(dec_string(7), "7");
    assert_eq!(dec_string(10), "10");
    assert_eq!(dec_string(987654321), "987654321");
}

#[test]
fn speedup_two_to_one() {
    let centi = speedup_centi(200, 100);
    assert_eq!(centi, 200);
    assert_eq!(format_speedup(centi), "2.00");
}

#[test]
fn speedup_zero_denominator_is_sentinel() {
    let centi = speedup_centi(123456, 0);
    assert_eq!(centi, 0);
    assert_eq!(format_speedup(centi), "0.00");
}

#[test]
fn speedup_equal_durations() {
    let centi = speedup_centi(100, 100);
    assert_eq!(centi, 100);
    assert_eq!(format_speedup(centi), "1.00");
}

#[test]
fn speedup_slower_than_baseline() {
    let centi = speedup_centi(100, 400);
    assert_eq!(centi, 25);
    assert_eq!(format_speedup(centi), "0.25");
}

#[test]
fn speedup_rounds_to_nearest_hundredth() {
    assert_eq!(speedup_centi(1, 3), 33);
    assert_eq!(speedup_centi(2, 3), 67);
}
