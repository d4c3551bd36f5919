use histoer::bins::{map_pair, map_value, BinSpec};
use histoer::error::HistError;
use histoer::sample::{apply, compare, BinOp, Comparator, Sample};

fn spec(n: usize, low: i64, high: i64) -> BinSpec {
    BinSpec::new(n, low, high).unwrap()
}

#[test]
fn in_range_values_follow_the_floor_formula() {
    let s = spec(3, 0, 30_000);
    assert_eq!(map_value(Sample::Finite(0), &s), Some(0));
    assert_eq!(map_value(Sample::Finite(9_999), &s), Some(0));
    assert_eq!(map_value(Sample::Finite(10_000), &s), Some(1));
    assert_eq!(map_value(Sample::Finite(20_000), &s), Some(2));
    assert_eq!(map_value(Sample::Finite(29_999), &s), Some(2));
}

#[test]
fn negative_range_bins() {
    let s = spec(600, -300_000, 300_000);
    assert_eq!(map_value(Sample::Finite(-300_000), &s), Some(0));
    assert_eq!(map_value(Sample::Finite(0), &s), Some(300));
    assert_eq!(map_value(Sample::Finite(-1), &s), Some(299));
    assert_eq!(map_value(Sample::Finite(299_999), &s), Some(599));
}

#[test]
fn upper_bound_is_excluded() {
    let s = spec(3, 0, 30_000);
    assert_eq!(map_value(Sample::Finite(30_000), &s), None);
    let t = spec(1, -5, 7);
    assert_eq!(map_value(Sample::Finite(7), &t), None);
    assert_eq!(map_value(Sample::Finite(6), &t), Some(0));
}

#[test]
fn below_range_is_discarded() {
    let s = spec(3, 0, 30_000);
    assert_eq!(map_value(Sample::Finite(-1), &s), None);
    assert_eq!(map_value(Sample::Finite(-1_000_000_000), &s), None);
}

#[test]
fn non_finite_values_are_discarded() {
    let s = spec(3, 0, 30_000);
    assert_eq!(map_value(Sample::NaN, &s), None);
    assert_eq!(map_value(Sample::PosInf, &s), None);
    assert_eq!(map_value(Sample::NegInf, &s), None);
}

#[test]
fn extreme_range_does_not_overflow() {
    let s = spec(usize::MAX, i64::MIN, i64::MAX);
    assert_eq!(map_value(Sample::Finite(i64::MIN), &s), Some(0));
    let r = map_value(Sample::Finite(i64::MAX - 1), &s).unwrap();
    assert!(r < usize::MAX);
}

#[test]
fn invalid_bin_specs_are_rejected() {
    assert_eq!(BinSpec::new(0, 0, 10), Err(HistError::InvalidBinSpec));
    assert_eq!(BinSpec::new(3, 10, 10), Err(HistError::InvalidBinSpec));
    assert_eq!(BinSpec::new(3, 11, 10), Err(HistError::InvalidBinSpec));
    assert_eq!(
        BinSpec::new(3, 0, 10),
        Ok(BinSpec { bin_count: 3, low: 0, high: 10 })
    );
}

#[test]
fn pairs_need_both_axes_in_range() {
    let sx = spec(3, 0, 30_000);
    let sy = spec(2, 0, 10_000);
    assert_eq!(
        map_pair(Sample::Finite(10_000), Sample::Finite(5_000), &sx, &sy),
        Some((1, 1))
    );
    assert_eq!(map_pair(Sample::Finite(10_000), Sample::Finite(10_000), &sx, &sy), None);
    assert_eq!(map_pair(Sample::NaN, Sample::Finite(5_000), &sx, &sy), None);
}

#[test]
fn finite_arithmetic_in_thousandths() {
    assert_eq!(apply(BinOp::Add, Sample::Finite(1_500), Sample::Finite(2_500)), Sample::Finite(4_000));
    assert_eq!(apply(BinOp::Sub, Sample::Finite(1_500), Sample::Finite(2_500)), Sample::Finite(-1_000));
    assert_eq!(apply(BinOp::Mul, Sample::Finite(2_000), Sample::Finite(3_500)), Sample::Finite(7_000));
    assert_eq!(apply(BinOp::Div, Sample::Finite(7_000), Sample::Finite(2_000)), Sample::Finite(3_500));
    assert_eq!(apply(BinOp::Div, Sample::Finite(-1_000), Sample::Finite(3_000)), Sample::Finite(-333));
    assert_eq!(apply(BinOp::Mul, Sample::Finite(-1), Sample::Finite(1)), Sample::Finite(0));
}

#[test]
fn division_by_zero_gives_non_finite() {
    assert_eq!(apply(BinOp::Div, Sample::Finite(1_000), Sample::Finite(0)), Sample::PosInf);
    assert_eq!(apply(BinOp::Div, Sample::Finite(-1_000), Sample::Finite(0)), Sample::NegInf);
    assert_eq!(apply(BinOp::Div, Sample::Finite(0), Sample::Finite(0)), Sample::NaN);
}

#[test]
fn overflow_becomes_infinite() {
    assert_eq!(apply(BinOp::Add, Sample::Finite(i64::MAX), Sample::Finite(1)), Sample::PosInf);
    assert_eq!(apply(BinOp::Sub, Sample::Finite(i64::MIN), Sample::Finite(1)), Sample::NegInf);
    assert_eq!(apply(BinOp::Mul, Sample::Finite(i64::MAX), Sample::Finite(-2_000)), Sample::NegInf);
}

#[test]
fn infinities_and_nan_propagate() {
    assert_eq!(apply(BinOp::Add, Sample::PosInf, Sample::NegInf), Sample::NaN);
    assert_eq!(apply(BinOp::Sub, Sample::PosInf, Sample::PosInf), Sample::NaN);
    assert_eq!(apply(BinOp::Add, Sample::PosInf, Sample::Finite(3)), Sample::PosInf);
    assert_eq!(apply(BinOp::Sub, Sample::Finite(3), Sample::PosInf), Sample::NegInf);
    assert_eq!(apply(BinOp::Mul, Sample::PosInf, Sample::Finite(0)), Sample::NaN);
    assert_eq!(apply(BinOp::Mul, Sample::NegInf, Sample::Finite(-2)), Sample::PosInf);
    assert_eq!(apply(BinOp::Div, Sample::Finite(5), Sample::PosInf), Sample::Finite(0));
    assert_eq!(apply(BinOp::Div, Sample::PosInf, Sample::Finite(-5)), Sample::NegInf);
    assert_eq!(apply(BinOp::Div, Sample::PosInf, Sample::NegInf), Sample::NaN);
    assert_eq!(apply(BinOp::Add, Sample::NaN, Sample::Finite(1)), Sample::NaN);
}

#[test]
fn comparisons_treat_nan_like_floating_point() {
    assert!(compare(Sample::NaN, Comparator::Neq, Sample::Finite(0)));
    assert!(!compare(Sample::NaN, Comparator::Eq, Sample::NaN));
    assert!(!compare(Sample::NaN, Comparator::Lt, Sample::Finite(0)));
    assert!(compare(Sample::Finite(-1_000_000_000), Comparator::Eq, Sample::Finite(-1_000_000_000)));
    assert!(compare(Sample::NegInf, Comparator::Lt, Sample::Finite(i64::MIN)));
    assert!(compare(Sample::PosInf, Comparator::Gt, Sample::Finite(i64::MAX)));
    assert!(compare(Sample::Finite(3), Comparator::Le, Sample::Finite(3)));
    assert!(compare(Sample::Finite(3), Comparator::Ge, Sample::Finite(2)));
    assert!(!compare(Sample::Finite(3), Comparator::Lt, Sample::Finite(3)));
}
