//! The bin mapper: from a value (or a pair) and a binning to a bin index.
use vstd::prelude::*;
use crate::error::HistError;
use crate::sample::Sample;

verus! {

/// A fixed-count, fixed-range binning of one axis. The range is half open,
/// `[low, high)`, in the same fixed-point units as `Sample::Finite`.
#[derive(Clone, Copy, Debug, PartialEq, Eq, Structural)]
pub struct BinSpec {
    pub bin_count: usize,
    pub low: i64,
    pub high: i64,
}

impl BinSpec {
    pub open spec fn wf(self) -> bool {
        self.bin_count > 0 && self.low < self.high
    }

    /// Checks and builds a binning.
    pub fn new(bin_count: usize, low: i64, high: i64) -> (r: Result<BinSpec, HistError>)
        ensures
            (bin_count > 0 && low < high) ==> r == Ok::<BinSpec, HistError>(
                BinSpec { bin_count, low, high },
            ),
            !(bin_count > 0 && low < high) ==> r == Err::<BinSpec, HistError>(
                HistError::InvalidBinSpec,
            ),
    {
        if bin_count > 0 && low < high {
            Ok(BinSpec { bin_count, low, high })
        } else {
            Err(HistError::InvalidBinSpec)
        }
    }
}

/// `floor((v - low) / (high - low) * bin_count)`, for `low <= v`.
pub open spec fn bin_formula(v: int, spec: BinSpec) -> int {
    ((v - spec.low) * spec.bin_count) / (spec.high - spec.low)
}

/// The bin of `value`: none for a non-finite value or one outside `[low, high)`.
pub open spec fn map_spec(value: Sample, spec: BinSpec) -> Option<int> {
    match value {
        Sample::Finite(m) => if spec.low <= m && m < spec.high {
            Some(bin_formula(m as int, spec))
        } else {
            None
        },
        _ => None,
    }
}

/// The cell of a pair: both axes must map, or the pair is discarded.
pub open spec fn map_pair_spec(x: Sample, y: Sample, sx: BinSpec, sy: BinSpec) -> Option<
    (int, int),
> {
    match (map_spec(x, sx), map_spec(y, sy)) {
        (Some(i), Some(j)) => Some((i, j)),
        _ => None,
    }
}

pub proof fn lemma_bin_in_range(v: int, spec: BinSpec)
    requires
        spec.wf(),
        spec.low <= v < spec.high,
    ensures
        0 <= bin_formula(v, spec) < spec.bin_count,
{
    let d = v - spec.low;
    let w = spec.high - spec.low;
    let n = spec.bin_count as int;
    assert(0 <= (d * n) / w < n) by (nonlinear_arith)
        requires
            0 <= d < w,
            n > 0,
    ;
}

/// Maps one value to its bin.
pub fn map_value(value: Sample, spec: &BinSpec) -> (r: Option<usize>)
    requires
        spec.wf(),
    ensures
        match map_spec(value, *spec) {
            Some(i) => r == Some(i as usize) && 0 <= i < spec.bin_count,
            None => r is None,
        },
{
    match value {
        Sample::Finite(m) => {
            if spec.low <= m && m < spec.high {
                let d: u128 = (m as i128 - spec.low as i128) as u128;
                let w: u128 = (spec.high as i128 - spec.low as i128) as u128;
                let n: u128 = spec.bin_count as u128;
                proof {
                    assert(d * n < 0x1_0000_0000_0000_0000 * 0x1_0000_0000_0000_0000)
                        by (nonlinear_arith)
                        requires
                            d < 0x1_0000_0000_0000_0000,
                            n < 0x1_0000_0000_0000_0000,
                    ;
                    lemma_bin_in_range(m as int, *spec);
                }
                let i: u128 = (d * n) / w;
                Some(i as usize)
            } else {
                None
            }
        },
        _ => None,
    }
}

/// Maps a pair of values to a cell of a two-dimensional binning.
pub fn map_pair(x: Sample, y: Sample, sx: &BinSpec, sy: &BinSpec) -> (r: Option<(usize, usize)>)
    requires
        sx.wf(),
        sy.wf(),
    ensures
        match map_pair_spec(x, y, *sx, *sy) {
            Some((i, j)) => r == Some((i as usize, j as usize)) && 0 <= i < sx.bin_count && 0
                <= j < sy.bin_count,
            None => r is None,
        },
{
    match (map_value(x, sx), map_value(y, sy)) {
        (Some(i), Some(j)) => Some((i, j)),
        _ => None,
    }
}

/// Every finite value in `[low, high)` lands in bin
/// `floor((v - low) / (high - low) * bin_count)`, which is a valid bin.
pub proof fn lemma_in_range_bin(v: i64, spec: BinSpec)
    requires
        spec.wf(),
        spec.low <= v < spec.high,
    ensures
        map_spec(Sample::Finite(v), spec) == Some(
            ((v - spec.low) * spec.bin_count) / (spec.high - spec.low),
        ),
        0 <= ((v - spec.low) * spec.bin_count) / (spec.high - spec.low) < spec.bin_count,
{
    lemma_bin_in_range(v as int, spec);
}

/// The upper end of the range is excluded: a value equal to `high` maps to no bin.
pub proof fn lemma_high_discarded(spec: BinSpec)
    requires
        spec.wf(),
    ensures
        map_spec(Sample::Finite(spec.high), spec) is None,
{
}

/// Non-finite values (not-a-number and both infinities) map to no bin.
pub proof fn lemma_non_finite_discarded(spec: BinSpec)
    ensures
        map_spec(Sample::NaN, spec) is None,
        map_spec(Sample::PosInf, spec) is None,
        map_spec(Sample::NegInf, spec) is None,
{
}

} // verus!
