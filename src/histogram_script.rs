//! The standard battery of histograms for focal-plane detector data:
//! derived timing and energy columns, views that select which wire planes
//! fired, and the one- and two-dimensional histograms over them.
use vstd::prelude::*;
use crate::bins::BinSpec;
use crate::dataset::{distinct, resolve_filters_spec, Dataset, Filter, Predicate};
use crate::error::HistError;
use crate::expr::{name_seq, resolve_spec, Expr, Formula};
use crate::registry::{Axes, Registry};
use crate::sample::{BinOp, Comparator, Sample};

verus! {

/// The value a detector channel holds when it did not fire (-1e6).
pub const NO_HIT: i64 = -1_000_000_000;

/// Focal-plane position binning: 600 bins over [-300, 300).
pub const FP_BINS: usize = 600;
pub const FP_LOW: i64 = -300_000;
pub const FP_HIGH: i64 = 300_000;

/// Digitizer energy binning: 512 bins over [0, 4096).
pub const CAEN_BINS: usize = 512;
pub const CAEN_LOW: i64 = 0;
pub const CAEN_HIGH: i64 = 4_096_000;

/// The base columns are distinct, hold every column that the battery reads,
/// and none of the names of its derived columns. Column names are unique
/// within a dataset context, so a base column named like a derived column is
/// refused (`DuplicateName`) rather than replaced by the derived one.
pub open spec fn battery_ready(base: Seq<Seq<char>>) -> bool {
    &&& distinct(base)
    &&& base.contains("DelayFrontRightEnergy"@)
    &&& base.contains("DelayFrontLeftEnergy"@)
    &&& base.contains("DelayBackRightEnergy"@)
    &&& base.contains("DelayBackLeftEnergy"@)
    &&& base.contains("DelayFrontLeftTime"@)
    &&& base.contains("AnodeFrontTime"@)
    &&& base.contains("DelayFrontRightTime"@)
    &&& base.contains("DelayBackLeftTime"@)
    &&& base.contains("DelayBackRightTime"@)
    &&& base.contains("AnodeBackTime"@)
    &&& base.contains("ScintLeftTime"@)
    &&& base.contains("ScintRightTime"@)
    &&& base.contains("Cebra0Energy"@)
    &&& base.contains("Cebra1Energy"@)
    &&& base.contains("Cebra2Energy"@)
    &&& base.contains("Cebra3Energy"@)
    &&& base.contains("Cebra4Energy"@)
    &&& base.contains("X1"@)
    &&& base.contains("X2"@)
    &&& base.contains("Xavg"@)
    &&& base.contains("ScintLeftEnergy"@)
    &&& base.contains("AnodeBackEnergy"@)
    &&& base.contains("AnodeFrontEnergy"@)
    &&& base.contains("CathodeEnergy"@)
    &&& base.contains("ScintRightEnergy"@)
    &&& base.contains("Theta"@)
    &&& !base.contains("DelayFrontAverageEnergy"@)
    &&& !base.contains("DelayBackAverageEnergy"@)
    &&& !base.contains("DelayFrontLeftTime_AnodeFrontTime"@)
    &&& !base.contains("DelayFrontRightTime_AnodeFrontTime"@)
    &&& !base.contains("DelayBackLeftTime_AnodeFrontTime"@)
    &&& !base.contains("DelayBackRightTime_AnodeFrontTime"@)
    &&& !base.contains("DelayFrontLeftTime_AnodeBackTime"@)
    &&& !base.contains("DelayFrontRightTime_AnodeBackTime"@)
    &&& !base.contains("DelayBackLeftTime_AnodeBackTime"@)
    &&& !base.contains("DelayBackRightTime_AnodeBackTime"@)
    &&& !base.contains("AnodeFrontTime_AnodeBackTime"@)
    &&& !base.contains("AnodeBackTime_AnodeFrontTime"@)
    &&& !base.contains("AnodeFrontTime_ScintLeftTime"@)
    &&& !base.contains("AnodeBackTime_ScintLeftTime"@)
    &&& !base.contains("DelayFrontLeftTime_ScintLeftTime"@)
    &&& !base.contains("DelayFrontRightTime_ScintLeftTime"@)
    &&& !base.contains("DelayBackLeftTime_ScintLeftTime"@)
    &&& !base.contains("DelayBackRightTime_ScintLeftTime"@)
    &&& !base.contains("ScintRightTime_ScintLeftTime"@)
}

/// Every column that a histogram of the battery reads is declared.
pub open spec fn columns_ready(names: Seq<Seq<char>>) -> bool {
    &&& names.contains("Cebra0Energy"@)
    &&& names.contains("Cebra1Energy"@)
    &&& names.contains("Cebra2Energy"@)
    &&& names.contains("Cebra3Energy"@)
    &&& names.contains("Cebra4Energy"@)
    &&& names.contains("X1"@)
    &&& names.contains("X2"@)
    &&& names.contains("DelayBackRightEnergy"@)
    &&& names.contains("DelayBackLeftEnergy"@)
    &&& names.contains("DelayFrontRightEnergy"@)
    &&& names.contains("DelayFrontLeftEnergy"@)
    &&& names.contains("Xavg"@)
    &&& names.contains("DelayFrontAverageEnergy"@)
    &&& names.contains("DelayBackAverageEnergy"@)
    &&& names.contains("ScintLeftEnergy"@)
    &&& names.contains("AnodeBackEnergy"@)
    &&& names.contains("AnodeFrontEnergy"@)
    &&& names.contains("CathodeEnergy"@)
    &&& names.contains("ScintRightEnergy"@)
    &&& names.contains("Theta"@)
    &&& names.contains("DelayFrontLeftTime_AnodeFrontTime"@)
    &&& names.contains("DelayFrontRightTime_AnodeFrontTime"@)
    &&& names.contains("DelayBackLeftTime_AnodeBackTime"@)
    &&& names.contains("DelayBackRightTime_AnodeBackTime"@)
    &&& names.contains("DelayBackLeftTime_AnodeFrontTime"@)
    &&& names.contains("DelayBackRightTime_AnodeFrontTime"@)
    &&& names.contains("DelayFrontLeftTime_AnodeBackTime"@)
    &&& names.contains("DelayFrontRightTime_AnodeBackTime"@)
    &&& names.contains("AnodeFrontTime_AnodeBackTime"@)
    &&& names.contains("AnodeBackTime_AnodeFrontTime"@)
    &&& names.contains("AnodeFrontTime_ScintLeftTime"@)
    &&& names.contains("AnodeBackTime_ScintLeftTime"@)
    &&& names.contains("DelayFrontLeftTime_ScintLeftTime"@)
    &&& names.contains("DelayFrontRightTime_ScintLeftTime"@)
    &&& names.contains("DelayBackLeftTime_ScintLeftTime"@)
    &&& names.contains("DelayBackRightTime_ScintLeftTime"@)
    &&& names.contains("ScintRightTime_ScintLeftTime"@)
}

/// Position of the first column called `n`.
pub open spec fn col(names: Seq<Seq<char>>, n: Seq<char>) -> usize {
    (names.index_of_first(n)->0) as usize
}

/// A one-dimensional definition: `bins` bins over `[low, high)` of column `c`.
pub open spec fn def1(
    names: Seq<Seq<char>>,
    name: Seq<char>,
    view: usize,
    c: Seq<char>,
    bins: usize,
    low: i64,
    high: i64,
) -> (Seq<char>, usize, Axes) {
    (name, view, Axes::One { column: col(names, c), spec: BinSpec { bin_count: bins, low, high } })
}

/// A two-dimensional definition: column `cx` on the x axis, `cy` on the y
/// axis, each binned by its (count, low, high).
pub open spec fn def2(
    names: Seq<Seq<char>>,
    name: Seq<char>,
    view: usize,
    cx: Seq<char>,
    cy: Seq<char>,
    x: (usize, i64, i64),
    y: (usize, i64, i64),
) -> (Seq<char>, usize, Axes) {
    (
        name,
        view,
        Axes::Two {
            column_x: col(names, cx),
            column_y: col(names, cy),
            spec_x: BinSpec { bin_count: x.0, low: x.1, high: x.2 },
            spec_y: BinSpec { bin_count: y.0, low: y.1, high: y.2 },
        },
    )
}

/// The battery's histogram definitions (name, view, axes), in registration
/// order, with columns resolved against `names`. Ranges are in thousandths;
/// the upper end of the Theta axis, a quarter turn (about 1.5707963), is
/// rounded to the nearest thousandth, 1.571.
pub open spec fn battery_defs(names: Seq<Seq<char>>) -> Seq<(Seq<char>, usize, Axes)> {
    seq![
        def1(names, "Cebra0Energy"@, 0, "Cebra0Energy"@, CAEN_BINS, CAEN_LOW, CAEN_HIGH),
        def1(names, "Cebra1Energy"@, 0, "Cebra1Energy"@, CAEN_BINS, CAEN_LOW, CAEN_HIGH),
        def1(names, "Cebra2Energy"@, 0, "Cebra2Energy"@, CAEN_BINS, CAEN_LOW, CAEN_HIGH),
        def1(names, "Cebra3Energy"@, 0, "Cebra3Energy"@, CAEN_BINS, CAEN_LOW, CAEN_HIGH),
        def1(names, "Cebra4Energy"@, 0, "Cebra4Energy"@, CAEN_BINS, CAEN_LOW, CAEN_HIGH),
        def1(names, "X1"@, 0, "X1"@, FP_BINS, FP_LOW, FP_HIGH),
        def1(names, "X2"@, 0, "X2"@, FP_BINS, FP_LOW, FP_HIGH),
        def2(names, "X2 v X1"@, 0, "X1"@, "X2"@, (FP_BINS, FP_LOW, FP_HIGH), (FP_BINS, FP_LOW, FP_HIGH)),
        def2(names, "DelayBackRight v X1"@, 0, "X1"@, "DelayBackRightEnergy"@, (FP_BINS, FP_LOW, FP_HIGH), (CAEN_BINS, CAEN_LOW, CAEN_HIGH)),
        def2(names, "DelayBackLeft v X1"@, 0, "X1"@, "DelayBackLeftEnergy"@, (FP_BINS, FP_LOW, FP_HIGH), (CAEN_BINS, CAEN_LOW, CAEN_HIGH)),
        def2(names, "DelayFrontRight v X1"@, 0, "X1"@, "DelayFrontRightEnergy"@, (FP_BINS, FP_LOW, FP_HIGH), (CAEN_BINS, CAEN_LOW, CAEN_HIGH)),
        def2(names, "DelayFrontLeft v X1"@, 0, "X1"@, "DelayFrontLeftEnergy"@, (FP_BINS, FP_LOW, FP_HIGH), (CAEN_BINS, CAEN_LOW, CAEN_HIGH)),
        def2(names, "DelayBackRight v X2"@, 0, "X2"@, "DelayBackRightEnergy"@, (FP_BINS, FP_LOW, FP_HIGH), (CAEN_BINS, CAEN_LOW, CAEN_HIGH)),
        def2(names, "DelayBackLeft v X2"@, 0, "X2"@, "DelayBackLeftEnergy"@, (FP_BINS, FP_LOW, FP_HIGH), (CAEN_BINS, CAEN_LOW, CAEN_HIGH)),
        def2(names, "DelayFrontRight v X2"@, 0, "X2"@, "DelayFrontRightEnergy"@, (FP_BINS, FP_LOW, FP_HIGH), (CAEN_BINS, CAEN_LOW, CAEN_HIGH)),
        def2(names, "DelayFrontLeft v X2"@, 0, "X2"@, "DelayFrontLeftEnergy"@, (FP_BINS, FP_LOW, FP_HIGH), (CAEN_BINS, CAEN_LOW, CAEN_HIGH)),
        def2(names, "DelayBackRight v Xavg"@, 0, "Xavg"@, "DelayBackRightEnergy"@, (FP_BINS, FP_LOW, FP_HIGH), (CAEN_BINS, CAEN_LOW, CAEN_HIGH)),
        def2(names, "DelayBackLeft v Xavg"@, 0, "Xavg"@, "DelayBackLeftEnergy"@, (FP_BINS, FP_LOW, FP_HIGH), (CAEN_BINS, CAEN_LOW, CAEN_HIGH)),
        def2(names, "DelayFrontRight v Xavg"@, 0, "Xavg"@, "DelayFrontRightEnergy"@, (FP_BINS, FP_LOW, FP_HIGH), (CAEN_BINS, CAEN_LOW, CAEN_HIGH)),
        def2(names, "DelayFrontLeft v Xavg"@, 0, "Xavg"@, "DelayFrontLeftEnergy"@, (FP_BINS, FP_LOW, FP_HIGH), (CAEN_BINS, CAEN_LOW, CAEN_HIGH)),
        def2(names, "DelayFrontAverage v X1"@, 0, "X1"@, "DelayFrontAverageEnergy"@, (FP_BINS, FP_LOW, FP_HIGH), (CAEN_BINS, CAEN_LOW, CAEN_HIGH)),
        def2(names, "DelayBackAverage v X1"@, 0, "X1"@, "DelayBackAverageEnergy"@, (FP_BINS, FP_LOW, FP_HIGH), (CAEN_BINS, CAEN_LOW, CAEN_HIGH)),
        def2(names, "DelayFrontAverage v X2"@, 0, "X2"@, "DelayFrontAverageEnergy"@, (FP_BINS, FP_LOW, FP_HIGH), (CAEN_BINS, CAEN_LOW, CAEN_HIGH)),
        def2(names, "DelayBackAverage v X2"@, 0, "X2"@, "DelayBackAverageEnergy"@, (FP_BINS, FP_LOW, FP_HIGH), (CAEN_BINS, CAEN_LOW, CAEN_HIGH)),
        def2(names, "DelayFrontAverage v Xavg"@, 0, "Xavg"@, "DelayFrontAverageEnergy"@, (FP_BINS, FP_LOW, FP_HIGH), (CAEN_BINS, CAEN_LOW, CAEN_HIGH)),
        def2(names, "DelayBackAverage v Xavg"@, 0, "Xavg"@, "DelayBackAverageEnergy"@, (FP_BINS, FP_LOW, FP_HIGH), (CAEN_BINS, CAEN_LOW, CAEN_HIGH)),
        def2(names, "AnodeBack v ScintLeft"@, 0, "ScintLeftEnergy"@, "AnodeBackEnergy"@, (CAEN_BINS, CAEN_LOW, CAEN_HIGH), (CAEN_BINS, CAEN_LOW, CAEN_HIGH)),
        def2(names, "AnodeFront v ScintLeft"@, 0, "ScintLeftEnergy"@, "AnodeFrontEnergy"@, (CAEN_BINS, CAEN_LOW, CAEN_HIGH), (CAEN_BINS, CAEN_LOW, CAEN_HIGH)),
        def2(names, "Cathode v ScintLeft"@, 0, "ScintLeftEnergy"@, "CathodeEnergy"@, (CAEN_BINS, CAEN_LOW, CAEN_HIGH), (CAEN_BINS, CAEN_LOW, CAEN_HIGH)),
        def2(names, "AnodeBack v ScintRight"@, 0, "ScintRightEnergy"@, "AnodeBackEnergy"@, (CAEN_BINS, CAEN_LOW, CAEN_HIGH), (CAEN_BINS, CAEN_LOW, CAEN_HIGH)),
        def2(names, "AnodeFront v ScintRight"@, 0, "ScintRightEnergy"@, "AnodeFrontEnergy"@, (CAEN_BINS, CAEN_LOW, CAEN_HIGH), (CAEN_BINS, CAEN_LOW, CAEN_HIGH)),
        def2(names, "Cathode v ScintRight"@, 0, "ScintRightEnergy"@, "CathodeEnergy"@, (CAEN_BINS, CAEN_LOW, CAEN_HIGH), (CAEN_BINS, CAEN_LOW, CAEN_HIGH)),
        def2(names, "ScintLeft v X1"@, 0, "X1"@, "ScintLeftEnergy"@, (FP_BINS, FP_LOW, FP_HIGH), (CAEN_BINS, CAEN_LOW, CAEN_HIGH)),
        def2(names, "ScintLeft v X2"@, 0, "X2"@, "ScintLeftEnergy"@, (FP_BINS, FP_LOW, FP_HIGH), (CAEN_BINS, CAEN_LOW, CAEN_HIGH)),
        def2(names, "ScintLeft v Xavg"@, 0, "Xavg"@, "ScintLeftEnergy"@, (FP_BINS, FP_LOW, FP_HIGH), (CAEN_BINS, CAEN_LOW, CAEN_HIGH)),
        def2(names, "ScintRight v X1"@, 0, "X1"@, "ScintRightEnergy"@, (FP_BINS, FP_LOW, FP_HIGH), (CAEN_BINS, CAEN_LOW, CAEN_HIGH)),
        def2(names, "ScintRight v X2"@, 0, "X2"@, "ScintRightEnergy"@, (FP_BINS, FP_LOW, FP_HIGH), (CAEN_BINS, CAEN_LOW, CAEN_HIGH)),
        def2(names, "ScintRight v Xavg"@, 0, "Xavg"@, "ScintRightEnergy"@, (FP_BINS, FP_LOW, FP_HIGH), (CAEN_BINS, CAEN_LOW, CAEN_HIGH)),
        def2(names, "AnodeBack v X1"@, 0, "X1"@, "AnodeBackEnergy"@, (FP_BINS, FP_LOW, FP_HIGH), (CAEN_BINS, CAEN_LOW, CAEN_HIGH)),
        def2(names, "AnodeBack v X2"@, 0, "X2"@, "AnodeBackEnergy"@, (FP_BINS, FP_LOW, FP_HIGH), (CAEN_BINS, CAEN_LOW, CAEN_HIGH)),
        def2(names, "AnodeBack v Xavg"@, 0, "Xavg"@, "AnodeBackEnergy"@, (FP_BINS, FP_LOW, FP_HIGH), (CAEN_BINS, CAEN_LOW, CAEN_HIGH)),
        def2(names, "AnodeFront v X1"@, 0, "X1"@, "AnodeFrontEnergy"@, (FP_BINS, FP_LOW, FP_HIGH), (CAEN_BINS, CAEN_LOW, CAEN_HIGH)),
        def2(names, "AnodeFront v X2"@, 0, "X2"@, "AnodeFrontEnergy"@, (FP_BINS, FP_LOW, FP_HIGH), (CAEN_BINS, CAEN_LOW, CAEN_HIGH)),
        def2(names, "AnodeFront v Xavg"@, 0, "Xavg"@, "AnodeFrontEnergy"@, (FP_BINS, FP_LOW, FP_HIGH), (CAEN_BINS, CAEN_LOW, CAEN_HIGH)),
        def2(names, "Cathode v X1"@, 0, "X1"@, "CathodeEnergy"@, (FP_BINS, FP_LOW, FP_HIGH), (CAEN_BINS, CAEN_LOW, CAEN_HIGH)),
        def2(names, "Cathode v X2"@, 0, "X2"@, "CathodeEnergy"@, (FP_BINS, FP_LOW, FP_HIGH), (CAEN_BINS, CAEN_LOW, CAEN_HIGH)),
        def2(names, "Cathode v Xavg"@, 0, "Xavg"@, "CathodeEnergy"@, (FP_BINS, FP_LOW, FP_HIGH), (CAEN_BINS, CAEN_LOW, CAEN_HIGH)),
        def1(names, "X1: bothplanes"@, 1, "X1"@, FP_BINS, FP_LOW, FP_HIGH),
        def1(names, "X2: bothplanes"@, 1, "X2"@, FP_BINS, FP_LOW, FP_HIGH),
        def1(names, "Xavg: bothplanes"@, 1, "Xavg"@, FP_BINS, FP_LOW, FP_HIGH),
        def2(names, "Theta v Xavg: bothplanes"@, 1, "Xavg"@, "Theta"@, (FP_BINS, FP_LOW, FP_HIGH), (300, 0, 1_571)),
        def1(names, "DelayFrontLeftTime_relTo_AnodeFrontTime_bothplanes"@, 1, "DelayFrontLeftTime_AnodeFrontTime"@, 8000, -4_000_000i64, 4_000_000),
        def1(names, "DelayFrontRightTime_relTo_AnodeFrontTime_bothplanes"@, 1, "DelayFrontRightTime_AnodeFrontTime"@, 8000, -4_000_000i64, 4_000_000),
        def1(names, "DelayBackLeftTime_relTo_AnodeBackTime_bothplanes"@, 1, "DelayBackLeftTime_AnodeBackTime"@, 8000, -4_000_000i64, 4_000_000),
        def1(names, "DelayBackRightTime_relTo_AnodeBackTime_bothplanes"@, 1, "DelayBackRightTime_AnodeBackTime"@, 8000, -4_000_000i64, 4_000_000),
        def1(names, "X1: only1plane"@, 2, "X1"@, FP_BINS, FP_LOW, FP_HIGH),
        def1(names, "DelayFrontLeftTime_relTo_AnodeFrontTime_noX2"@, 2, "DelayFrontLeftTime_AnodeFrontTime"@, 8000, -4_000_000i64, 4_000_000),
        def1(names, "DelayFrontRightTime_relTo_AnodeFrontTime_noX2"@, 2, "DelayFrontRightTime_AnodeFrontTime"@, 8000, -4_000_000i64, 4_000_000),
        def1(names, "DelayBackLeftTime_relTo_AnodeFrontTime_noX2"@, 2, "DelayBackLeftTime_AnodeFrontTime"@, 8000, -4_000_000i64, 4_000_000),
        def1(names, "DelayBackRightTime_relTo_AnodeFrontTime_noX2"@, 2, "DelayBackRightTime_AnodeFrontTime"@, 8000, -4_000_000i64, 4_000_000),
        def1(names, "DelayFrontLeftTime_relTo_AnodeBackTime_noX2"@, 2, "DelayFrontLeftTime_AnodeBackTime"@, 8000, -4_000_000i64, 4_000_000),
        def1(names, "DelayFrontRightTime_relTo_AnodeBackTime_noX2"@, 2, "DelayFrontRightTime_AnodeBackTime"@, 8000, -4_000_000i64, 4_000_000),
        def1(names, "DelayBackLeftTime_relTo_AnodeBackTime_noX2"@, 2, "DelayBackLeftTime_AnodeBackTime"@, 8000, -4_000_000i64, 4_000_000),
        def1(names, "DelayBackRightTime_relTo_AnodeBackTime_noX2"@, 2, "DelayBackRightTime_AnodeBackTime"@, 8000, -4_000_000i64, 4_000_000),
        def1(names, "X2: only1plane"@, 3, "X2"@, FP_BINS, FP_LOW, FP_HIGH),
        def1(names, "DelayFrontLeftTime_relTo_AnodeFrontTime_noX1"@, 3, "DelayFrontLeftTime_AnodeFrontTime"@, 8000, -4_000_000i64, 4_000_000),
        def1(names, "DelayFrontRightTime_relTo_AnodeFrontTime_noX1"@, 3, "DelayFrontRightTime_AnodeFrontTime"@, 8000, -4_000_000i64, 4_000_000),
        def1(names, "DelayBackLeftTime_relTo_AnodeFrontTime_noX1"@, 3, "DelayBackLeftTime_AnodeFrontTime"@, 8000, -4_000_000i64, 4_000_000),
        def1(names, "DelayBackRightTime_relTo_AnodeFrontTime_noX1"@, 3, "DelayBackRightTime_AnodeFrontTime"@, 8000, -4_000_000i64, 4_000_000),
        def1(names, "DelayFrontLeftTime_relTo_AnodeBackTime_noX1"@, 3, "DelayFrontLeftTime_AnodeBackTime"@, 8000, -4_000_000i64, 4_000_000),
        def1(names, "DelayFrontRightTime_relTo_AnodeBackTime_noX1"@, 3, "DelayFrontRightTime_AnodeBackTime"@, 8000, -4_000_000i64, 4_000_000),
        def1(names, "DelayBackLeftTime_relTo_AnodeBackTime_noX1"@, 3, "DelayBackLeftTime_AnodeBackTime"@, 8000, -4_000_000i64, 4_000_000),
        def1(names, "DelayBackRightTime_relTo_AnodeBackTime_noX1"@, 3, "DelayBackRightTime_AnodeBackTime"@, 8000, -4_000_000i64, 4_000_000),
        def1(names, "AnodeFrontTime-AnodeBackTime"@, 4, "AnodeFrontTime_AnodeBackTime"@, 1000, -3_000_000i64, 3_000_000),
        def1(names, "AnodeBackTime-AnodeFrontTime"@, 4, "AnodeBackTime_AnodeFrontTime"@, 1000, -3_000_000i64, 3_000_000),
        def1(names, "AnodeFrontTime-ScintLeftTime"@, 4, "AnodeFrontTime_ScintLeftTime"@, 1000, -3_000_000i64, 3_000_000),
        def1(names, "AnodeBackTime-ScintLeftTime"@, 4, "AnodeBackTime_ScintLeftTime"@, 1000, -3_000_000i64, 3_000_000),
        def1(names, "DelayFrontLeftTime-ScintLeftTime"@, 4, "DelayFrontLeftTime_ScintLeftTime"@, 1000, -3_000_000i64, 3_000_000),
        def1(names, "DelayFrontRightTime-ScintLeftTime"@, 4, "DelayFrontRightTime_ScintLeftTime"@, 1000, -3_000_000i64, 3_000_000),
        def1(names, "DelayBackLeftTime-ScintLeftTime"@, 4, "DelayBackLeftTime_ScintLeftTime"@, 1000, -3_000_000i64, 3_000_000),
        def1(names, "DelayBackRightTime-ScintLeftTime"@, 4, "DelayBackRightTime_ScintLeftTime"@, 1000, -3_000_000i64, 3_000_000),
        def1(names, "ScintRightTime-ScintLeftTime"@, 4, "ScintRightTime_ScintLeftTime"@, 1000, -3_000_000i64, 3_000_000),
        def2(names, "ScintTimeDif v Xavg"@, 4, "Xavg"@, "ScintRightTime_ScintLeftTime"@, (FP_BINS, FP_LOW, FP_HIGH), (12800, -3_200_000i64, 3_200_000)),
    ]
}

/// `a op b`, or `a op (b / divisor)`, with columns resolved against `names`.
pub open spec fn pair_formula(
    names: Seq<Seq<char>>,
    a: Seq<char>,
    op: BinOp,
    b: Seq<char>,
    divisor: Option<i64>,
) -> Formula {
    let fb = Formula::Column(col(names, b));
    Formula::Binary(
        op,
        Box::new(Formula::Column(col(names, a))),
        Box::new(
            match divisor {
                Some(d) => Formula::Binary(
                    BinOp::Div,
                    Box::new(fb),
                    Box::new(Formula::Literal(Sample::Finite(d))),
                ),
                None => fb,
            },
        ),
    )
}

/// The names of the battery's derived columns, in declaration order.
pub open spec fn derived_names() -> Seq<Seq<char>> {
    seq![
        "DelayFrontAverageEnergy"@,
        "DelayBackAverageEnergy"@,
        "DelayFrontLeftTime_AnodeFrontTime"@,
        "DelayFrontRightTime_AnodeFrontTime"@,
        "DelayBackLeftTime_AnodeFrontTime"@,
        "DelayBackRightTime_AnodeFrontTime"@,
        "DelayFrontLeftTime_AnodeBackTime"@,
        "DelayFrontRightTime_AnodeBackTime"@,
        "DelayBackLeftTime_AnodeBackTime"@,
        "DelayBackRightTime_AnodeBackTime"@,
        "AnodeFrontTime_AnodeBackTime"@,
        "AnodeBackTime_AnodeFrontTime"@,
        "AnodeFrontTime_ScintLeftTime"@,
        "AnodeBackTime_ScintLeftTime"@,
        "DelayFrontLeftTime_ScintLeftTime"@,
        "DelayFrontRightTime_ScintLeftTime"@,
        "DelayBackLeftTime_ScintLeftTime"@,
        "DelayBackRightTime_ScintLeftTime"@,
        "ScintRightTime_ScintLeftTime"@,
    ]
}

/// The formulas of the battery's derived columns, in declaration order.
pub open spec fn battery_formulas(names: Seq<Seq<char>>) -> Seq<Formula> {
    seq![
        pair_formula(names, "DelayFrontRightEnergy"@, BinOp::Add, "DelayFrontLeftEnergy"@, Some(2_000)),
        pair_formula(names, "DelayBackRightEnergy"@, BinOp::Add, "DelayBackLeftEnergy"@, Some(2_000)),
        pair_formula(names, "DelayFrontLeftTime"@, BinOp::Sub, "AnodeFrontTime"@, None::<i64>),
        pair_formula(names, "DelayFrontRightTime"@, BinOp::Sub, "AnodeFrontTime"@, None::<i64>),
        pair_formula(names, "DelayBackLeftTime"@, BinOp::Sub, "AnodeFrontTime"@, None::<i64>),
        pair_formula(names, "DelayBackRightTime"@, BinOp::Sub, "AnodeFrontTime"@, None::<i64>),
        pair_formula(names, "DelayFrontLeftTime"@, BinOp::Sub, "AnodeBackTime"@, None::<i64>),
        pair_formula(names, "DelayFrontRightTime"@, BinOp::Sub, "AnodeBackTime"@, None::<i64>),
        pair_formula(names, "DelayBackLeftTime"@, BinOp::Sub, "AnodeBackTime"@, None::<i64>),
        pair_formula(names, "DelayBackRightTime"@, BinOp::Sub, "AnodeBackTime"@, None::<i64>),
        pair_formula(names, "AnodeFrontTime"@, BinOp::Sub, "AnodeBackTime"@, None::<i64>),
        pair_formula(names, "AnodeBackTime"@, BinOp::Sub, "AnodeFrontTime"@, None::<i64>),
        pair_formula(names, "AnodeFrontTime"@, BinOp::Sub, "ScintLeftTime"@, None::<i64>),
        pair_formula(names, "AnodeBackTime"@, BinOp::Sub, "ScintLeftTime"@, None::<i64>),
        pair_formula(names, "DelayFrontLeftTime"@, BinOp::Sub, "ScintLeftTime"@, None::<i64>),
        pair_formula(names, "DelayFrontRightTime"@, BinOp::Sub, "ScintLeftTime"@, None::<i64>),
        pair_formula(names, "DelayBackLeftTime"@, BinOp::Sub, "ScintLeftTime"@, None::<i64>),
        pair_formula(names, "DelayBackRightTime"@, BinOp::Sub, "ScintLeftTime"@, None::<i64>),
        pair_formula(names, "ScintRightTime"@, BinOp::Sub, "ScintLeftTime"@, None::<i64>),
    ]
}

/// The filters of a view that compares column `a` by `ca`, then column `b`
/// by `cb`, to the no-hit value.
pub open spec fn hit_filters(
    names: Seq<Seq<char>>,
    a: Seq<char>,
    ca: Comparator,
    b: Seq<char>,
    cb: Comparator,
) -> Seq<Predicate> {
    seq![
        Predicate { column: col(names, a), cmp: ca, constant: Sample::Finite(NO_HIT) },
        Predicate { column: col(names, b), cmp: cb, constant: Sample::Finite(NO_HIT) },
    ]
}

fn column(name: &str) -> (r: Box<Expr>)
    ensures
        match *r {
            Expr::Column(s) => s@ == name@,
            _ => false,
        },
{
    Box::new(Expr::Column(name.to_owned()))
}

/// Declares the derived column `name` as `a op b`, or `a op (b / divisor)`.
fn derive(ds: &mut Dataset, name: &str, a: &str, op: BinOp, b: &str, divisor: Option<i64>) -> (r:
    Result<(), HistError>)
    requires
        old(ds).wf(),
    ensures
        final(ds).wf(),
        final(ds).n_base == old(ds).n_base,
        final(ds).views@.len() == old(ds).views@.len(),
        !old(ds).names().contains(name@) && old(ds).names().contains(a@) && old(ds).names().contains(
            b@,
        ) ==> r is Ok,
        r is Ok ==> {
            &&& final(ds).derived@.len() == old(ds).derived@.len() + 1
            &&& final(ds).names() == old(ds).names().push(name@)
            &&& final(ds).names().contains(name@)
            &&& forall|x: Seq<char>|
                old(ds).names().contains(x) ==> #[trigger] final(ds).names().contains(x)
            &&& forall|x: Seq<char>|
                old(ds).names().contains(x) ==> #[trigger] final(ds).names().index_of_first(x)
                    == old(ds).names().index_of_first(x)
            &&& old(ds).names().contains(a@)
            &&& old(ds).names().contains(b@)
            &&& final(ds).derived@ == old(ds).derived@.push(
                pair_formula(old(ds).names(), a@, op, b@, divisor),
            )
        },
        final(ds).views == old(ds).views,
        r is Err ==> final(ds).derived@.len() == old(ds).derived@.len(),
        r matches Err(x) ==> x is DuplicateName || x is UnknownColumn,
{
    let rhs = match divisor {
        Some(d) => Box::new(Expr::Binary(BinOp::Div, column(b), Box::new(Expr::Literal(Sample::Finite(d))))),
        None => column(b),
    };
    let e = Expr::Binary(op, column(a), rhs);
    proof {
        let names = ds.names();
        names.index_of_first_ensures(a@);
        names.index_of_first_ensures(b@);
        reveal_with_fuel(resolve_spec, 3);
    }
    let r = ds.add_derived(name.to_owned(), &e);
    proof {
        if r is Ok {
            let o = old(ds).names();
            assert(ds.names() =~= o.push(name@));
            assert(ds.names()[o.len() as int] == name@);
            assert forall|x: Seq<char>| o.contains(x) implies #[trigger] ds.names().contains(x) by {
                let i = choose|i: int| 0 <= i < o.len() && o[i] == x;
                assert(ds.names()[i] == x);
            }
            assert forall|x: Seq<char>| o.contains(x) implies #[trigger] ds.names().index_of_first(x)
                == o.index_of_first(x) by {
                o.index_of_first_ensures(x);
                ds.names().index_of_first_ensures(x);
                let i = o.index_of_first(x)->0;
                assert(ds.names()[i] == x);
                if ds.names().index_of_first(x)->0 < i {
                    assert(ds.names()[ds.names().index_of_first(x)->0] == o[ds.names().index_of_first(x)->0]);
                }
            }
            o.index_of_first_ensures(a@);
            o.index_of_first_ensures(b@);
            assert(resolve_spec(e, o) == Some(pair_formula(o, a@, op, b@, divisor)));
        }
    }
    match r {
        Ok(_) => Ok(()),
        Err(x) => Err(x),
    }
}

/// A view of the base rows where column `a` compares to the no-hit value by
/// `ca`, and column `b` by `cb`.
fn hit_view(ds: &mut Dataset, a: &str, ca: Comparator, b: &str, cb: Comparator) -> (r: Result<
    usize,
    HistError,
>)
    requires
        old(ds).wf(),
    ensures
        final(ds).wf(),
        final(ds).n_base == old(ds).n_base,
        final(ds).derived@.len() == old(ds).derived@.len(),
        final(ds).names() == old(ds).names(),
        old(ds).names().contains(a@) && old(ds).names().contains(b@) ==> r is Ok,
        r matches Ok(v) ==> v == old(ds).views@.len() && final(ds).views@.len() == v + 1,
        r matches Ok(v) ==> {
            &&& final(ds).views@.take(v as int) == old(ds).views@
            &&& final(ds).views@[v as int].parent == Some(0usize)
            &&& final(ds).views@[v as int].filters@ == hit_filters(old(ds).names(), a@, ca, b@, cb)
        },
        final(ds).derived == old(ds).derived,
        r matches Err(x) ==> x is UnknownColumn,
{
    let mut filters: Vec<Filter> = Vec::new();
    filters.push(Filter { column: a.to_owned(), cmp: ca, constant: Sample::Finite(NO_HIT) });
    filters.push(Filter { column: b.to_owned(), cmp: cb, constant: Sample::Finite(NO_HIT) });
    proof {
        let names = ds.names();
        names.index_of_first_ensures(a@);
        names.index_of_first_ensures(b@);
        if names.contains(a@) && names.contains(b@) {
            assert(forall|k: int|
                0 <= k < filters@.len() ==> names.index_of_first(filters@[k].column@) is Some);
            assert(resolve_filters_spec(filters@, names) is Some);
        }
    }
    let base = ds.base_view();
    let r = ds.add_view(base, &filters);
    proof {
        if r is Ok {
            let names = old(ds).names();
            assert(filters@[0].column@ == a@);
            assert(filters@[1].column@ == b@);
            assert(ds.views@[r->Ok_0 as int].filters@ =~= hit_filters(names, a@, ca, b@, cb));
        }
    }
    r
}

fn h1(
    ds: &Dataset,
    reg: &mut Registry,
    name: &str,
    view: usize,
    col: &str,
    bins: usize,
    low: i64,
    high: i64,
) -> (r: Result<(), HistError>)
    requires
        ds.wf(),
        old(reg).valid_for(ds),
        view < ds.views@.len(),
        bins > 0,
        low < high,
    ensures
        final(reg).valid_for(ds),
        !old(reg).names().contains(name@) && ds.names().contains(col@) ==> r is Ok,
        r is Ok ==> final(reg).hists@.len() == old(reg).hists@.len() + 1 && final(reg).names()
            == old(reg).names().push(name@),
        r is Ok ==> final(reg).defs() == old(reg).defs().push(
            def1(ds.names(), name@, view, col@, bins, low, high),
        ),
        r matches Err(x) ==> x is DuplicateName || x is UnknownColumn,
{
    proof {
        ds.names().index_of_first_ensures(col@);
    }
    let spec = BinSpec { bin_count: bins, low, high };
    let r = reg.register_1d(ds, name.to_owned(), view, &col.to_owned(), spec);
    proof {
        if r is Ok {
            assert(reg.names() =~= old(reg).names().push(name@));
            assert(reg.defs() =~= old(reg).defs().push(reg.defs().last()));
        }
    }
    r
}

fn h2(
    ds: &Dataset,
    reg: &mut Registry,
    name: &str,
    view: usize,
    col_x: &str,
    col_y: &str,
    x: (usize, i64, i64),
    y: (usize, i64, i64),
) -> (r: Result<(), HistError>)
    requires
        ds.wf(),
        old(reg).valid_for(ds),
        view < ds.views@.len(),
        x.0 > 0 && x.1 < x.2,
        y.0 > 0 && y.1 < y.2,
        x.0 * y.0 <= usize::MAX,
    ensures
        final(reg).valid_for(ds),
        !old(reg).names().contains(name@) && ds.names().contains(col_x@) && ds.names().contains(
            col_y@,
        ) ==> r is Ok,
        r is Ok ==> final(reg).hists@.len() == old(reg).hists@.len() + 1 && final(reg).names()
            == old(reg).names().push(name@),
        r is Ok ==> final(reg).defs() == old(reg).defs().push(
            def2(ds.names(), name@, view, col_x@, col_y@, x, y),
        ),
        r matches Err(x) ==> x is DuplicateName || x is UnknownColumn,
{
    proof {
        ds.names().index_of_first_ensures(col_x@);
        ds.names().index_of_first_ensures(col_y@);
    }
    let sx = BinSpec { bin_count: x.0, low: x.1, high: x.2 };
    let sy = BinSpec { bin_count: y.0, low: y.1, high: y.2 };
    let r = reg.register_2d(ds, name.to_owned(), view, &col_x.to_owned(), &col_y.to_owned(), sx, sy);
    proof {
        if r is Ok {
            assert(reg.names() =~= old(reg).names().push(name@));
            assert(reg.defs() =~= old(reg).defs().push(reg.defs().last()));
        }
    }
    r
}

/// Declares the derived columns `DelayFrontAverageEnergy`, `DelayBackAverageEnergy`, `DelayFrontLeftTime_AnodeFrontTime`, `DelayFrontRightTime_AnodeFrontTime`, `DelayBackLeftTime_AnodeFrontTime`, `DelayBackRightTime_AnodeFrontTime`, `DelayFrontLeftTime_AnodeBackTime`, `DelayFrontRightTime_AnodeBackTime`, `DelayBackLeftTime_AnodeBackTime`, `DelayBackRightTime_AnodeBackTime`.
#[verifier::rlimit(100)]
fn derive_part_1(ds: &mut Dataset) -> (r: Result<(), HistError>)
    requires
        old(ds).wf(),
    ensures
        final(ds).wf(),
        final(ds).n_base == old(ds).n_base,
        final(ds).views == old(ds).views,
        old(ds).names().contains("DelayFrontRightEnergy"@) && old(ds).names().contains("DelayFrontLeftEnergy"@) && old(ds).names().contains("DelayBackRightEnergy"@) && old(ds).names().contains("DelayBackLeftEnergy"@) && old(ds).names().contains("DelayFrontLeftTime"@) && old(ds).names().contains("AnodeFrontTime"@) && old(ds).names().contains("DelayFrontRightTime"@) && old(ds).names().contains("DelayBackLeftTime"@) && old(ds).names().contains("DelayBackRightTime"@) && old(ds).names().contains("AnodeBackTime"@) && !old(ds).names().contains("DelayFrontAverageEnergy"@) && !old(ds).names().contains("DelayBackAverageEnergy"@) && !old(ds).names().contains("DelayFrontLeftTime_AnodeFrontTime"@) && !old(ds).names().contains("DelayFrontRightTime_AnodeFrontTime"@) && !old(ds).names().contains("DelayBackLeftTime_AnodeFrontTime"@) && !old(ds).names().contains("DelayBackRightTime_AnodeFrontTime"@) && !old(ds).names().contains("DelayFrontLeftTime_AnodeBackTime"@) && !old(ds).names().contains("DelayFrontRightTime_AnodeBackTime"@) && !old(ds).names().contains("DelayBackLeftTime_AnodeBackTime"@) && !old(ds).names().contains("DelayBackRightTime_AnodeBackTime"@) ==> r is Ok,
        r is Ok ==> {
            &&& final(ds).names() == old(ds).names() + seq!["DelayFrontAverageEnergy"@, "DelayBackAverageEnergy"@, "DelayFrontLeftTime_AnodeFrontTime"@, "DelayFrontRightTime_AnodeFrontTime"@, "DelayBackLeftTime_AnodeFrontTime"@, "DelayBackRightTime_AnodeFrontTime"@, "DelayFrontLeftTime_AnodeBackTime"@, "DelayFrontRightTime_AnodeBackTime"@, "DelayBackLeftTime_AnodeBackTime"@, "DelayBackRightTime_AnodeBackTime"@]
            &&& final(ds).derived@ == old(ds).derived@ + seq![
                    pair_formula(final(ds).names(), "DelayFrontRightEnergy"@, BinOp::Add, "DelayFrontLeftEnergy"@, Some(2_000)),
                    pair_formula(final(ds).names(), "DelayBackRightEnergy"@, BinOp::Add, "DelayBackLeftEnergy"@, Some(2_000)),
                    pair_formula(final(ds).names(), "DelayFrontLeftTime"@, BinOp::Sub, "AnodeFrontTime"@, None::<i64>),
                    pair_formula(final(ds).names(), "DelayFrontRightTime"@, BinOp::Sub, "AnodeFrontTime"@, None::<i64>),
                    pair_formula(final(ds).names(), "DelayBackLeftTime"@, BinOp::Sub, "AnodeFrontTime"@, None::<i64>),
                    pair_formula(final(ds).names(), "DelayBackRightTime"@, BinOp::Sub, "AnodeFrontTime"@, None::<i64>),
                    pair_formula(final(ds).names(), "DelayFrontLeftTime"@, BinOp::Sub, "AnodeBackTime"@, None::<i64>),
                    pair_formula(final(ds).names(), "DelayFrontRightTime"@, BinOp::Sub, "AnodeBackTime"@, None::<i64>),
                    pair_formula(final(ds).names(), "DelayBackLeftTime"@, BinOp::Sub, "AnodeBackTime"@, None::<i64>),
                    pair_formula(final(ds).names(), "DelayBackRightTime"@, BinOp::Sub, "AnodeBackTime"@, None::<i64>),
                ]
            &&& forall|x: Seq<char>|
                old(ds).names().contains(x) ==> #[trigger] final(ds).names().contains(x)
            &&& forall|x: Seq<char>|
                old(ds).names().contains(x) ==> #[trigger] final(ds).names().index_of_first(x)
                    == old(ds).names().index_of_first(x)
            &&& final(ds).names().contains("DelayFrontRightEnergy"@)
            &&& final(ds).names().contains("DelayFrontLeftEnergy"@)
            &&& final(ds).names().contains("DelayBackRightEnergy"@)
            &&& final(ds).names().contains("DelayBackLeftEnergy"@)
            &&& final(ds).names().contains("DelayFrontLeftTime"@)
            &&& final(ds).names().contains("AnodeFrontTime"@)
            &&& final(ds).names().contains("DelayFrontRightTime"@)
            &&& final(ds).names().contains("DelayBackLeftTime"@)
            &&& final(ds).names().contains("DelayBackRightTime"@)
            &&& final(ds).names().contains("AnodeBackTime"@)
            &&& final(ds).names().contains("DelayFrontAverageEnergy"@)
            &&& final(ds).names().contains("DelayBackAverageEnergy"@)
            &&& final(ds).names().contains("DelayFrontLeftTime_AnodeFrontTime"@)
            &&& final(ds).names().contains("DelayFrontRightTime_AnodeFrontTime"@)
            &&& final(ds).names().contains("DelayBackLeftTime_AnodeFrontTime"@)
            &&& final(ds).names().contains("DelayBackRightTime_AnodeFrontTime"@)
            &&& final(ds).names().contains("DelayFrontLeftTime_AnodeBackTime"@)
            &&& final(ds).names().contains("DelayFrontRightTime_AnodeBackTime"@)
            &&& final(ds).names().contains("DelayBackLeftTime_AnodeBackTime"@)
            &&& final(ds).names().contains("DelayBackRightTime_AnodeBackTime"@)
        },
        r matches Err(x) ==> x is DuplicateName || x is UnknownColumn,
{
    proof {
        reveal_strlit("DelayBackAverageEnergy");
        reveal_strlit("DelayBackLeftTime_AnodeBackTime");
        reveal_strlit("DelayBackLeftTime_AnodeFrontTime");
        reveal_strlit("DelayBackRightTime_AnodeBackTime");
        reveal_strlit("DelayBackRightTime_AnodeFrontTime");
        reveal_strlit("DelayFrontAverageEnergy");
        reveal_strlit("DelayFrontLeftTime_AnodeBackTime");
        reveal_strlit("DelayFrontLeftTime_AnodeFrontTime");
        reveal_strlit("DelayFrontRightTime_AnodeBackTime");
        reveal_strlit("DelayFrontRightTime_AnodeFrontTime");
        assert("DelayBackAverageEnergy"@.len() == 22);
        assert("DelayBackLeftTime_AnodeBackTime"@.len() == 31);
        assert("DelayBackLeftTime_AnodeFrontTime"@.len() == 32);
        assert("DelayBackRightTime_AnodeBackTime"@.len() == 32);
        assert("DelayBackRightTime_AnodeFrontTime"@.len() == 33);
        assert("DelayFrontAverageEnergy"@.len() == 23);
        assert("DelayFrontLeftTime_AnodeBackTime"@.len() == 32);
        assert("DelayFrontLeftTime_AnodeFrontTime"@.len() == 33);
        assert("DelayFrontRightTime_AnodeBackTime"@.len() == 33);
        assert("DelayFrontRightTime_AnodeFrontTime"@.len() == 34);
        assert("DelayFrontLeftTime_AnodeFrontTime"@[5] != "DelayBackRightTime_AnodeFrontTime"@[5]);
        assert("DelayBackLeftTime_AnodeFrontTime"@[5] != "DelayFrontLeftTime_AnodeBackTime"@[5]);
        assert("DelayFrontLeftTime_AnodeFrontTime"@[10] != "DelayFrontRightTime_AnodeBackTime"@[10]);
        assert("DelayBackRightTime_AnodeFrontTime"@[5] != "DelayFrontRightTime_AnodeBackTime"@[5]);
        assert("DelayBackLeftTime_AnodeFrontTime"@[9] != "DelayBackRightTime_AnodeBackTime"@[9]);
        assert("DelayFrontLeftTime_AnodeBackTime"@[5] != "DelayBackRightTime_AnodeBackTime"@[5]);
    }
    let ghost ready = ds.names().contains("DelayFrontRightEnergy"@) && ds.names().contains("DelayFrontLeftEnergy"@) && ds.names().contains("DelayBackRightEnergy"@) && ds.names().contains("DelayBackLeftEnergy"@) && ds.names().contains("DelayFrontLeftTime"@) && ds.names().contains("AnodeFrontTime"@) && ds.names().contains("DelayFrontRightTime"@) && ds.names().contains("DelayBackLeftTime"@) && ds.names().contains("DelayBackRightTime"@) && ds.names().contains("AnodeBackTime"@) && !ds.names().contains("DelayFrontAverageEnergy"@) && !ds.names().contains("DelayBackAverageEnergy"@) && !ds.names().contains("DelayFrontLeftTime_AnodeFrontTime"@) && !ds.names().contains("DelayFrontRightTime_AnodeFrontTime"@) && !ds.names().contains("DelayBackLeftTime_AnodeFrontTime"@) && !ds.names().contains("DelayBackRightTime_AnodeFrontTime"@) && !ds.names().contains("DelayFrontLeftTime_AnodeBackTime"@) && !ds.names().contains("DelayFrontRightTime_AnodeBackTime"@) && !ds.names().contains("DelayBackLeftTime_AnodeBackTime"@) && !ds.names().contains("DelayBackRightTime_AnodeBackTime"@);
    let ghost n0 = ds.names();
    proof {
        assert(ready ==> (!ds.names().contains("DelayFrontAverageEnergy"@) && ds.names().contains("DelayFrontRightEnergy"@) && ds.names().contains("DelayFrontLeftEnergy"@)));
    }
    derive(ds, "DelayFrontAverageEnergy", "DelayFrontRightEnergy", BinOp::Add, "DelayFrontLeftEnergy", Some(2_000))?;
    let ghost n1 = ds.names();
    proof {
        assert(ready ==> (!ds.names().contains("DelayBackAverageEnergy"@) && ds.names().contains("DelayBackRightEnergy"@) && ds.names().contains("DelayBackLeftEnergy"@)));
    }
    derive(ds, "DelayBackAverageEnergy", "DelayBackRightEnergy", BinOp::Add, "DelayBackLeftEnergy", Some(2_000))?;
    let ghost n2 = ds.names();
    proof {
        assert(ready ==> (!ds.names().contains("DelayFrontLeftTime_AnodeFrontTime"@) && ds.names().contains("DelayFrontLeftTime"@) && ds.names().contains("AnodeFrontTime"@)));
    }
    derive(ds, "DelayFrontLeftTime_AnodeFrontTime", "DelayFrontLeftTime", BinOp::Sub, "AnodeFrontTime", None)?;
    let ghost n3 = ds.names();
    proof {
        assert(ready ==> (!ds.names().contains("DelayFrontRightTime_AnodeFrontTime"@) && ds.names().contains("DelayFrontRightTime"@) && ds.names().contains("AnodeFrontTime"@)));
    }
    derive(ds, "DelayFrontRightTime_AnodeFrontTime", "DelayFrontRightTime", BinOp::Sub, "AnodeFrontTime", None)?;
    let ghost n4 = ds.names();
    proof {
        assert(ready ==> (!ds.names().contains("DelayBackLeftTime_AnodeFrontTime"@) && ds.names().contains("DelayBackLeftTime"@) && ds.names().contains("AnodeFrontTime"@)));
    }
    derive(ds, "DelayBackLeftTime_AnodeFrontTime", "DelayBackLeftTime", BinOp::Sub, "AnodeFrontTime", None)?;
    let ghost n5 = ds.names();
    proof {
        assert(ready ==> (!ds.names().contains("DelayBackRightTime_AnodeFrontTime"@) && ds.names().contains("DelayBackRightTime"@) && ds.names().contains("AnodeFrontTime"@)));
    }
    derive(ds, "DelayBackRightTime_AnodeFrontTime", "DelayBackRightTime", BinOp::Sub, "AnodeFrontTime", None)?;
    let ghost n6 = ds.names();
    proof {
        assert(ready ==> (!ds.names().contains("DelayFrontLeftTime_AnodeBackTime"@) && ds.names().contains("DelayFrontLeftTime"@) && ds.names().contains("AnodeBackTime"@)));
    }
    derive(ds, "DelayFrontLeftTime_AnodeBackTime", "DelayFrontLeftTime", BinOp::Sub, "AnodeBackTime", None)?;
    let ghost n7 = ds.names();
    proof {
        assert(ready ==> (!ds.names().contains("DelayFrontRightTime_AnodeBackTime"@) && ds.names().contains("DelayFrontRightTime"@) && ds.names().contains("AnodeBackTime"@)));
    }
    derive(ds, "DelayFrontRightTime_AnodeBackTime", "DelayFrontRightTime", BinOp::Sub, "AnodeBackTime", None)?;
    let ghost n8 = ds.names();
    proof {
        assert(ready ==> (!ds.names().contains("DelayBackLeftTime_AnodeBackTime"@) && ds.names().contains("DelayBackLeftTime"@) && ds.names().contains("AnodeBackTime"@)));
    }
    derive(ds, "DelayBackLeftTime_AnodeBackTime", "DelayBackLeftTime", BinOp::Sub, "AnodeBackTime", None)?;
    let ghost n9 = ds.names();
    proof {
        assert(ready ==> (!ds.names().contains("DelayBackRightTime_AnodeBackTime"@) && ds.names().contains("DelayBackRightTime"@) && ds.names().contains("AnodeBackTime"@)));
    }
    derive(ds, "DelayBackRightTime_AnodeBackTime", "DelayBackRightTime", BinOp::Sub, "AnodeBackTime", None)?;
    proof {
        let o = old(ds).names();
        assert(ds.names() =~= o + seq!["DelayFrontAverageEnergy"@, "DelayBackAverageEnergy"@, "DelayFrontLeftTime_AnodeFrontTime"@, "DelayFrontRightTime_AnodeFrontTime"@, "DelayBackLeftTime_AnodeFrontTime"@, "DelayBackRightTime_AnodeFrontTime"@, "DelayFrontLeftTime_AnodeBackTime"@, "DelayFrontRightTime_AnodeBackTime"@, "DelayBackLeftTime_AnodeBackTime"@, "DelayBackRightTime_AnodeBackTime"@]);
        assert(col(n0, "DelayFrontRightEnergy"@) == col(ds.names(), "DelayFrontRightEnergy"@));
        assert(col(n0, "DelayFrontLeftEnergy"@) == col(ds.names(), "DelayFrontLeftEnergy"@));
        assert(col(n1, "DelayBackRightEnergy"@) == col(ds.names(), "DelayBackRightEnergy"@));
        assert(col(n1, "DelayBackLeftEnergy"@) == col(ds.names(), "DelayBackLeftEnergy"@));
        assert(col(n2, "DelayFrontLeftTime"@) == col(ds.names(), "DelayFrontLeftTime"@));
        assert(col(n2, "AnodeFrontTime"@) == col(ds.names(), "AnodeFrontTime"@));
        assert(col(n3, "DelayFrontRightTime"@) == col(ds.names(), "DelayFrontRightTime"@));
        assert(col(n3, "AnodeFrontTime"@) == col(ds.names(), "AnodeFrontTime"@));
        assert(col(n4, "DelayBackLeftTime"@) == col(ds.names(), "DelayBackLeftTime"@));
        assert(col(n4, "AnodeFrontTime"@) == col(ds.names(), "AnodeFrontTime"@));
        assert(col(n5, "DelayBackRightTime"@) == col(ds.names(), "DelayBackRightTime"@));
        assert(col(n5, "AnodeFrontTime"@) == col(ds.names(), "AnodeFrontTime"@));
        assert(col(n6, "DelayFrontLeftTime"@) == col(ds.names(), "DelayFrontLeftTime"@));
        assert(col(n6, "AnodeBackTime"@) == col(ds.names(), "AnodeBackTime"@));
        assert(col(n7, "DelayFrontRightTime"@) == col(ds.names(), "DelayFrontRightTime"@));
        assert(col(n7, "AnodeBackTime"@) == col(ds.names(), "AnodeBackTime"@));
        assert(col(n8, "DelayBackLeftTime"@) == col(ds.names(), "DelayBackLeftTime"@));
        assert(col(n8, "AnodeBackTime"@) == col(ds.names(), "AnodeBackTime"@));
        assert(col(n9, "DelayBackRightTime"@) == col(ds.names(), "DelayBackRightTime"@));
        assert(col(n9, "AnodeBackTime"@) == col(ds.names(), "AnodeBackTime"@));
        assert(ds.derived@ =~= old(ds).derived@ + seq![
                    pair_formula(ds.names(), "DelayFrontRightEnergy"@, BinOp::Add, "DelayFrontLeftEnergy"@, Some(2_000)),
                    pair_formula(ds.names(), "DelayBackRightEnergy"@, BinOp::Add, "DelayBackLeftEnergy"@, Some(2_000)),
                    pair_formula(ds.names(), "DelayFrontLeftTime"@, BinOp::Sub, "AnodeFrontTime"@, None::<i64>),
                    pair_formula(ds.names(), "DelayFrontRightTime"@, BinOp::Sub, "AnodeFrontTime"@, None::<i64>),
                    pair_formula(ds.names(), "DelayBackLeftTime"@, BinOp::Sub, "AnodeFrontTime"@, None::<i64>),
                    pair_formula(ds.names(), "DelayBackRightTime"@, BinOp::Sub, "AnodeFrontTime"@, None::<i64>),
                    pair_formula(ds.names(), "DelayFrontLeftTime"@, BinOp::Sub, "AnodeBackTime"@, None::<i64>),
                    pair_formula(ds.names(), "DelayFrontRightTime"@, BinOp::Sub, "AnodeBackTime"@, None::<i64>),
                    pair_formula(ds.names(), "DelayBackLeftTime"@, BinOp::Sub, "AnodeBackTime"@, None::<i64>),
                    pair_formula(ds.names(), "DelayBackRightTime"@, BinOp::Sub, "AnodeBackTime"@, None::<i64>),
                ]);
        assert forall|x: Seq<char>| o.contains(x) implies #[trigger] ds.names().contains(x) by {
            assert(n0.contains(x));
            assert(n1.contains(x));
            assert(n2.contains(x));
            assert(n3.contains(x));
            assert(n4.contains(x));
            assert(n5.contains(x));
            assert(n6.contains(x));
            assert(n7.contains(x));
            assert(n8.contains(x));
            assert(n9.contains(x));
        }
        assert forall|x: Seq<char>| o.contains(x) implies #[trigger] ds.names().index_of_first(x)
            == o.index_of_first(x) by {
            assert(n0.contains(x));
            assert(n1.contains(x));
            assert(n2.contains(x));
            assert(n3.contains(x));
            assert(n4.contains(x));
            assert(n5.contains(x));
            assert(n6.contains(x));
            assert(n7.contains(x));
            assert(n8.contains(x));
            assert(n9.contains(x));
        }
    }
    Ok(())
}

/// Declares the derived columns `AnodeFrontTime_AnodeBackTime`, `AnodeBackTime_AnodeFrontTime`, `AnodeFrontTime_ScintLeftTime`, `AnodeBackTime_ScintLeftTime`, `DelayFrontLeftTime_ScintLeftTime`, `DelayFrontRightTime_ScintLeftTime`, `DelayBackLeftTime_ScintLeftTime`, `DelayBackRightTime_ScintLeftTime`, `ScintRightTime_ScintLeftTime`.
#[verifier::rlimit(100)]
fn derive_part_2(ds: &mut Dataset) -> (r: Result<(), HistError>)
    requires
        old(ds).wf(),
    ensures
        final(ds).wf(),
        final(ds).n_base == old(ds).n_base,
        final(ds).views == old(ds).views,
        old(ds).names().contains("AnodeFrontTime"@) && old(ds).names().contains("AnodeBackTime"@) && old(ds).names().contains("ScintLeftTime"@) && old(ds).names().contains("DelayFrontLeftTime"@) && old(ds).names().contains("DelayFrontRightTime"@) && old(ds).names().contains("DelayBackLeftTime"@) && old(ds).names().contains("DelayBackRightTime"@) && old(ds).names().contains("ScintRightTime"@) && !old(ds).names().contains("AnodeFrontTime_AnodeBackTime"@) && !old(ds).names().contains("AnodeBackTime_AnodeFrontTime"@) && !old(ds).names().contains("AnodeFrontTime_ScintLeftTime"@) && !old(ds).names().contains("AnodeBackTime_ScintLeftTime"@) && !old(ds).names().contains("DelayFrontLeftTime_ScintLeftTime"@) && !old(ds).names().contains("DelayFrontRightTime_ScintLeftTime"@) && !old(ds).names().contains("DelayBackLeftTime_ScintLeftTime"@) && !old(ds).names().contains("DelayBackRightTime_ScintLeftTime"@) && !old(ds).names().contains("ScintRightTime_ScintLeftTime"@) ==> r is Ok,
        r is Ok ==> {
            &&& final(ds).names() == old(ds).names() + seq!["AnodeFrontTime_AnodeBackTime"@, "AnodeBackTime_AnodeFrontTime"@, "AnodeFrontTime_ScintLeftTime"@, "AnodeBackTime_ScintLeftTime"@, "DelayFrontLeftTime_ScintLeftTime"@, "DelayFrontRightTime_ScintLeftTime"@, "DelayBackLeftTime_ScintLeftTime"@, "DelayBackRightTime_ScintLeftTime"@, "ScintRightTime_ScintLeftTime"@]
            &&& final(ds).derived@ == old(ds).derived@ + seq![
                    pair_formula(final(ds).names(), "AnodeFrontTime"@, BinOp::Sub, "AnodeBackTime"@, None::<i64>),
                    pair_formula(final(ds).names(), "AnodeBackTime"@, BinOp::Sub, "AnodeFrontTime"@, None::<i64>),
                    pair_formula(final(ds).names(), "AnodeFrontTime"@, BinOp::Sub, "ScintLeftTime"@, None::<i64>),
                    pair_formula(final(ds).names(), "AnodeBackTime"@, BinOp::Sub, "ScintLeftTime"@, None::<i64>),
                    pair_formula(final(ds).names(), "DelayFrontLeftTime"@, BinOp::Sub, "ScintLeftTime"@, None::<i64>),
                    pair_formula(final(ds).names(), "DelayFrontRightTime"@, BinOp::Sub, "ScintLeftTime"@, None::<i64>),
                    pair_formula(final(ds).names(), "DelayBackLeftTime"@, BinOp::Sub, "ScintLeftTime"@, None::<i64>),
                    pair_formula(final(ds).names(), "DelayBackRightTime"@, BinOp::Sub, "ScintLeftTime"@, None::<i64>),
                    pair_formula(final(ds).names(), "ScintRightTime"@, BinOp::Sub, "ScintLeftTime"@, None::<i64>),
                ]
            &&& forall|x: Seq<char>|
                old(ds).names().contains(x) ==> #[trigger] final(ds).names().contains(x)
            &&& forall|x: Seq<char>|
                old(ds).names().contains(x) ==> #[trigger] final(ds).names().index_of_first(x)
                    == old(ds).names().index_of_first(x)
            &&& final(ds).names().contains("AnodeFrontTime"@)
            &&& final(ds).names().contains("AnodeBackTime"@)
            &&& final(ds).names().contains("ScintLeftTime"@)
            &&& final(ds).names().contains("DelayFrontLeftTime"@)
            &&& final(ds).names().contains("DelayFrontRightTime"@)
            &&& final(ds).names().contains("DelayBackLeftTime"@)
            &&& final(ds).names().contains("DelayBackRightTime"@)
            &&& final(ds).names().contains("ScintRightTime"@)
            &&& final(ds).names().contains("AnodeFrontTime_AnodeBackTime"@)
            &&& final(ds).names().contains("AnodeBackTime_AnodeFrontTime"@)
            &&& final(ds).names().contains("AnodeFrontTime_ScintLeftTime"@)
            &&& final(ds).names().contains("AnodeBackTime_ScintLeftTime"@)
            &&& final(ds).names().contains("DelayFrontLeftTime_ScintLeftTime"@)
            &&& final(ds).names().contains("DelayFrontRightTime_ScintLeftTime"@)
            &&& final(ds).names().contains("DelayBackLeftTime_ScintLeftTime"@)
            &&& final(ds).names().contains("DelayBackRightTime_ScintLeftTime"@)
            &&& final(ds).names().contains("ScintRightTime_ScintLeftTime"@)
        },
        r matches Err(x) ==> x is DuplicateName || x is UnknownColumn,
{
    proof {
        reveal_strlit("AnodeBackTime_AnodeFrontTime");
        reveal_strlit("AnodeBackTime_ScintLeftTime");
        reveal_strlit("AnodeFrontTime_AnodeBackTime");
        reveal_strlit("AnodeFrontTime_ScintLeftTime");
        reveal_strlit("DelayBackLeftTime_ScintLeftTime");
        reveal_strlit("DelayBackRightTime_ScintLeftTime");
        reveal_strlit("DelayFrontLeftTime_ScintLeftTime");
        reveal_strlit("DelayFrontRightTime_ScintLeftTime");
        reveal_strlit("ScintRightTime_ScintLeftTime");
        assert("AnodeBackTime_AnodeFrontTime"@.len() == 28);
        assert("AnodeBackTime_ScintLeftTime"@.len() == 27);
        assert("AnodeFrontTime_AnodeBackTime"@.len() == 28);
        assert("AnodeFrontTime_ScintLeftTime"@.len() == 28);
        assert("DelayBackLeftTime_ScintLeftTime"@.len() == 31);
        assert("DelayBackRightTime_ScintLeftTime"@.len() == 32);
        assert("DelayFrontLeftTime_ScintLeftTime"@.len() == 32);
        assert("DelayFrontRightTime_ScintLeftTime"@.len() == 33);
        assert("ScintRightTime_ScintLeftTime"@.len() == 28);
        assert("AnodeFrontTime_AnodeBackTime"@[5] != "AnodeBackTime_AnodeFrontTime"@[5]);
        assert("AnodeFrontTime_AnodeBackTime"@[15] != "AnodeFrontTime_ScintLeftTime"@[15]);
        assert("AnodeBackTime_AnodeFrontTime"@[5] != "AnodeFrontTime_ScintLeftTime"@[5]);
        assert("DelayFrontLeftTime_ScintLeftTime"@[5] != "DelayBackRightTime_ScintLeftTime"@[5]);
        assert("AnodeFrontTime_AnodeBackTime"@[0] != "ScintRightTime_ScintLeftTime"@[0]);
        assert("AnodeBackTime_AnodeFrontTime"@[0] != "ScintRightTime_ScintLeftTime"@[0]);
        assert("AnodeFrontTime_ScintLeftTime"@[0] != "ScintRightTime_ScintLeftTime"@[0]);
    }
    let ghost ready = ds.names().contains("AnodeFrontTime"@) && ds.names().contains("AnodeBackTime"@) && ds.names().contains("ScintLeftTime"@) && ds.names().contains("DelayFrontLeftTime"@) && ds.names().contains("DelayFrontRightTime"@) && ds.names().contains("DelayBackLeftTime"@) && ds.names().contains("DelayBackRightTime"@) && ds.names().contains("ScintRightTime"@) && !ds.names().contains("AnodeFrontTime_AnodeBackTime"@) && !ds.names().contains("AnodeBackTime_AnodeFrontTime"@) && !ds.names().contains("AnodeFrontTime_ScintLeftTime"@) && !ds.names().contains("AnodeBackTime_ScintLeftTime"@) && !ds.names().contains("DelayFrontLeftTime_ScintLeftTime"@) && !ds.names().contains("DelayFrontRightTime_ScintLeftTime"@) && !ds.names().contains("DelayBackLeftTime_ScintLeftTime"@) && !ds.names().contains("DelayBackRightTime_ScintLeftTime"@) && !ds.names().contains("ScintRightTime_ScintLeftTime"@);
    let ghost n0 = ds.names();
    proof {
        assert(ready ==> (!ds.names().contains("AnodeFrontTime_AnodeBackTime"@) && ds.names().contains("AnodeFrontTime"@) && ds.names().contains("AnodeBackTime"@)));
    }
    derive(ds, "AnodeFrontTime_AnodeBackTime", "AnodeFrontTime", BinOp::Sub, "AnodeBackTime", None)?;
    let ghost n1 = ds.names();
    proof {
        assert(ready ==> (!ds.names().contains("AnodeBackTime_AnodeFrontTime"@) && ds.names().contains("AnodeBackTime"@) && ds.names().contains("AnodeFrontTime"@)));
    }
    derive(ds, "AnodeBackTime_AnodeFrontTime", "AnodeBackTime", BinOp::Sub, "AnodeFrontTime", None)?;
    let ghost n2 = ds.names();
    proof {
        assert(ready ==> (!ds.names().contains("AnodeFrontTime_ScintLeftTime"@) && ds.names().contains("AnodeFrontTime"@) && ds.names().contains("ScintLeftTime"@)));
    }
    derive(ds, "AnodeFrontTime_ScintLeftTime", "AnodeFrontTime", BinOp::Sub, "ScintLeftTime", None)?;
    let ghost n3 = ds.names();
    proof {
        assert(ready ==> (!ds.names().contains("AnodeBackTime_ScintLeftTime"@) && ds.names().contains("AnodeBackTime"@) && ds.names().contains("ScintLeftTime"@)));
    }
    derive(ds, "AnodeBackTime_ScintLeftTime", "AnodeBackTime", BinOp::Sub, "ScintLeftTime", None)?;
    let ghost n4 = ds.names();
    proof {
        assert(ready ==> (!ds.names().contains("DelayFrontLeftTime_ScintLeftTime"@) && ds.names().contains("DelayFrontLeftTime"@) && ds.names().contains("ScintLeftTime"@)));
    }
    derive(ds, "DelayFrontLeftTime_ScintLeftTime", "DelayFrontLeftTime", BinOp::Sub, "ScintLeftTime", None)?;
    let ghost n5 = ds.names();
    proof {
        assert(ready ==> (!ds.names().contains("DelayFrontRightTime_ScintLeftTime"@) && ds.names().contains("DelayFrontRightTime"@) && ds.names().contains("ScintLeftTime"@)));
    }
    derive(ds, "DelayFrontRightTime_ScintLeftTime", "DelayFrontRightTime", BinOp::Sub, "ScintLeftTime", None)?;
    let ghost n6 = ds.names();
    proof {
        assert(ready ==> (!ds.names().contains("DelayBackLeftTime_ScintLeftTime"@) && ds.names().contains("DelayBackLeftTime"@) && ds.names().contains("ScintLeftTime"@)));
    }
    derive(ds, "DelayBackLeftTime_ScintLeftTime", "DelayBackLeftTime", BinOp::Sub, "ScintLeftTime", None)?;
    let ghost n7 = ds.names();
    proof {
        assert(ready ==> (!ds.names().contains("DelayBackRightTime_ScintLeftTime"@) && ds.names().contains("DelayBackRightTime"@) && ds.names().contains("ScintLeftTime"@)));
    }
    derive(ds, "DelayBackRightTime_ScintLeftTime", "DelayBackRightTime", BinOp::Sub, "ScintLeftTime", None)?;
    let ghost n8 = ds.names();
    proof {
        assert(ready ==> (!ds.names().contains("ScintRightTime_ScintLeftTime"@) && ds.names().contains("ScintRightTime"@) && ds.names().contains("ScintLeftTime"@)));
    }
    derive(ds, "ScintRightTime_ScintLeftTime", "ScintRightTime", BinOp::Sub, "ScintLeftTime", None)?;
    proof {
        let o = old(ds).names();
        assert(ds.names() =~= o + seq!["AnodeFrontTime_AnodeBackTime"@, "AnodeBackTime_AnodeFrontTime"@, "AnodeFrontTime_ScintLeftTime"@, "AnodeBackTime_ScintLeftTime"@, "DelayFrontLeftTime_ScintLeftTime"@, "DelayFrontRightTime_ScintLeftTime"@, "DelayBackLeftTime_ScintLeftTime"@, "DelayBackRightTime_ScintLeftTime"@, "ScintRightTime_ScintLeftTime"@]);
        assert(col(n0, "AnodeFrontTime"@) == col(ds.names(), "AnodeFrontTime"@));
        assert(col(n0, "AnodeBackTime"@) == col(ds.names(), "AnodeBackTime"@));
        assert(col(n1, "AnodeBackTime"@) == col(ds.names(), "AnodeBackTime"@));
        assert(col(n1, "AnodeFrontTime"@) == col(ds.names(), "AnodeFrontTime"@));
        assert(col(n2, "AnodeFrontTime"@) == col(ds.names(), "AnodeFrontTime"@));
        assert(col(n2, "ScintLeftTime"@) == col(ds.names(), "ScintLeftTime"@));
        assert(col(n3, "AnodeBackTime"@) == col(ds.names(), "AnodeBackTime"@));
        assert(col(n3, "ScintLeftTime"@) == col(ds.names(), "ScintLeftTime"@));
        assert(col(n4, "DelayFrontLeftTime"@) == col(ds.names(), "DelayFrontLeftTime"@));
        assert(col(n4, "ScintLeftTime"@) == col(ds.names(), "ScintLeftTime"@));
        assert(col(n5, "DelayFrontRightTime"@) == col(ds.names(), "DelayFrontRightTime"@));
        assert(col(n5, "ScintLeftTime"@) == col(ds.names(), "ScintLeftTime"@));
        assert(col(n6, "DelayBackLeftTime"@) == col(ds.names(), "DelayBackLeftTime"@));
        assert(col(n6, "ScintLeftTime"@) == col(ds.names(), "ScintLeftTime"@));
        assert(col(n7, "DelayBackRightTime"@) == col(ds.names(), "DelayBackRightTime"@));
        assert(col(n7, "ScintLeftTime"@) == col(ds.names(), "ScintLeftTime"@));
        assert(col(n8, "ScintRightTime"@) == col(ds.names(), "ScintRightTime"@));
        assert(col(n8, "ScintLeftTime"@) == col(ds.names(), "ScintLeftTime"@));
        assert(ds.derived@ =~= old(ds).derived@ + seq![
                    pair_formula(ds.names(), "AnodeFrontTime"@, BinOp::Sub, "AnodeBackTime"@, None::<i64>),
                    pair_formula(ds.names(), "AnodeBackTime"@, BinOp::Sub, "AnodeFrontTime"@, None::<i64>),
                    pair_formula(ds.names(), "AnodeFrontTime"@, BinOp::Sub, "ScintLeftTime"@, None::<i64>),
                    pair_formula(ds.names(), "AnodeBackTime"@, BinOp::Sub, "ScintLeftTime"@, None::<i64>),
                    pair_formula(ds.names(), "DelayFrontLeftTime"@, BinOp::Sub, "ScintLeftTime"@, None::<i64>),
                    pair_formula(ds.names(), "DelayFrontRightTime"@, BinOp::Sub, "ScintLeftTime"@, None::<i64>),
                    pair_formula(ds.names(), "DelayBackLeftTime"@, BinOp::Sub, "ScintLeftTime"@, None::<i64>),
                    pair_formula(ds.names(), "DelayBackRightTime"@, BinOp::Sub, "ScintLeftTime"@, None::<i64>),
                    pair_formula(ds.names(), "ScintRightTime"@, BinOp::Sub, "ScintLeftTime"@, None::<i64>),
                ]);
        assert forall|x: Seq<char>| o.contains(x) implies #[trigger] ds.names().contains(x) by {
            assert(n0.contains(x));
            assert(n1.contains(x));
            assert(n2.contains(x));
            assert(n3.contains(x));
            assert(n4.contains(x));
            assert(n5.contains(x));
            assert(n6.contains(x));
            assert(n7.contains(x));
            assert(n8.contains(x));
        }
        assert forall|x: Seq<char>| o.contains(x) implies #[trigger] ds.names().index_of_first(x)
            == o.index_of_first(x) by {
            assert(n0.contains(x));
            assert(n1.contains(x));
            assert(n2.contains(x));
            assert(n3.contains(x));
            assert(n4.contains(x));
            assert(n5.contains(x));
            assert(n6.contains(x));
            assert(n7.contains(x));
            assert(n8.contains(x));
        }
    }
    Ok(())
}

/// Declares the battery's four views on the base view: both wire planes
/// hit (1), only the first (2), only the second (3), and a back-anode and
/// left-scintillator time present (4).
#[verifier::rlimit(100)]
fn battery_views(ds: &mut Dataset) -> (r: Result<(), HistError>)
    requires
        old(ds).wf(),
        old(ds).views@.len() == 1,
    ensures
        final(ds).wf(),
        final(ds).n_base == old(ds).n_base,
        final(ds).names() == old(ds).names(),
        final(ds).derived == old(ds).derived,
        old(ds).names().contains("X1"@) && old(ds).names().contains("X2"@) && old(ds).names().contains(
            "AnodeBackTime"@,
        ) && old(ds).names().contains("ScintLeftTime"@) ==> r is Ok,
        r is Ok ==> {
            &&& final(ds).views@.len() == 5
            &&& final(ds).views@[1].parent == Some(0usize)
            &&& final(ds).views@[1].filters@ == hit_filters(final(ds).names(), "X1"@, Comparator::Neq, "X2"@, Comparator::Neq)
            &&& final(ds).views@[2].parent == Some(0usize)
            &&& final(ds).views@[2].filters@ == hit_filters(final(ds).names(), "X1"@, Comparator::Neq, "X2"@, Comparator::Eq)
            &&& final(ds).views@[3].parent == Some(0usize)
            &&& final(ds).views@[3].filters@ == hit_filters(final(ds).names(), "X2"@, Comparator::Neq, "X1"@, Comparator::Eq)
            &&& final(ds).views@[4].parent == Some(0usize)
            &&& final(ds).views@[4].filters@ == hit_filters(final(ds).names(), "AnodeBackTime"@, Comparator::Neq, "ScintLeftTime"@, Comparator::Neq)
        },
        r matches Err(x) ==> x is UnknownColumn,
{
    hit_view(ds, "X1", Comparator::Neq, "X2", Comparator::Neq)?;
    let ghost w1 = ds.views@;
    hit_view(ds, "X1", Comparator::Neq, "X2", Comparator::Eq)?;
    let ghost w2 = ds.views@;
    hit_view(ds, "X2", Comparator::Neq, "X1", Comparator::Eq)?;
    let ghost w3 = ds.views@;
    hit_view(ds, "AnodeBackTime", Comparator::Neq, "ScintLeftTime", Comparator::Neq)?;
    let ghost w4 = ds.views@;
    proof {
        assert(ds.views@[1] == w1[1]);
        assert(ds.views@[1] == w2[1]);
        assert(ds.views@[2] == w2[2]);
        assert(ds.views@[1] == w3[1]);
        assert(ds.views@[2] == w3[2]);
        assert(ds.views@[3] == w3[3]);
    }
    Ok(())
}

proof fn lemma_battery_formulas(mid: Seq<Seq<char>>, names: Seq<Seq<char>>)
    requires
        col(mid, "DelayFrontRightEnergy"@) == col(names, "DelayFrontRightEnergy"@),
        col(mid, "DelayFrontLeftEnergy"@) == col(names, "DelayFrontLeftEnergy"@),
        col(mid, "DelayBackRightEnergy"@) == col(names, "DelayBackRightEnergy"@),
        col(mid, "DelayBackLeftEnergy"@) == col(names, "DelayBackLeftEnergy"@),
        col(mid, "DelayFrontLeftTime"@) == col(names, "DelayFrontLeftTime"@),
        col(mid, "AnodeFrontTime"@) == col(names, "AnodeFrontTime"@),
        col(mid, "DelayFrontRightTime"@) == col(names, "DelayFrontRightTime"@),
        col(mid, "DelayBackLeftTime"@) == col(names, "DelayBackLeftTime"@),
        col(mid, "DelayBackRightTime"@) == col(names, "DelayBackRightTime"@),
        col(mid, "AnodeBackTime"@) == col(names, "AnodeBackTime"@),
    ensures
        Seq::<Formula>::empty() + seq![
            pair_formula(mid, "DelayFrontRightEnergy"@, BinOp::Add, "DelayFrontLeftEnergy"@, Some(2_000)),
            pair_formula(mid, "DelayBackRightEnergy"@, BinOp::Add, "DelayBackLeftEnergy"@, Some(2_000)),
            pair_formula(mid, "DelayFrontLeftTime"@, BinOp::Sub, "AnodeFrontTime"@, None::<i64>),
            pair_formula(mid, "DelayFrontRightTime"@, BinOp::Sub, "AnodeFrontTime"@, None::<i64>),
            pair_formula(mid, "DelayBackLeftTime"@, BinOp::Sub, "AnodeFrontTime"@, None::<i64>),
            pair_formula(mid, "DelayBackRightTime"@, BinOp::Sub, "AnodeFrontTime"@, None::<i64>),
            pair_formula(mid, "DelayFrontLeftTime"@, BinOp::Sub, "AnodeBackTime"@, None::<i64>),
            pair_formula(mid, "DelayFrontRightTime"@, BinOp::Sub, "AnodeBackTime"@, None::<i64>),
            pair_formula(mid, "DelayBackLeftTime"@, BinOp::Sub, "AnodeBackTime"@, None::<i64>),
            pair_formula(mid, "DelayBackRightTime"@, BinOp::Sub, "AnodeBackTime"@, None::<i64>),
        ] + seq![
            pair_formula(names, "AnodeFrontTime"@, BinOp::Sub, "AnodeBackTime"@, None::<i64>),
            pair_formula(names, "AnodeBackTime"@, BinOp::Sub, "AnodeFrontTime"@, None::<i64>),
            pair_formula(names, "AnodeFrontTime"@, BinOp::Sub, "ScintLeftTime"@, None::<i64>),
            pair_formula(names, "AnodeBackTime"@, BinOp::Sub, "ScintLeftTime"@, None::<i64>),
            pair_formula(names, "DelayFrontLeftTime"@, BinOp::Sub, "ScintLeftTime"@, None::<i64>),
            pair_formula(names, "DelayFrontRightTime"@, BinOp::Sub, "ScintLeftTime"@, None::<i64>),
            pair_formula(names, "DelayBackLeftTime"@, BinOp::Sub, "ScintLeftTime"@, None::<i64>),
            pair_formula(names, "DelayBackRightTime"@, BinOp::Sub, "ScintLeftTime"@, None::<i64>),
            pair_formula(names, "ScintRightTime"@, BinOp::Sub, "ScintLeftTime"@, None::<i64>),
        ] == battery_formulas(names),
{
    assert(Seq::<Formula>::empty() + seq![
            pair_formula(mid, "DelayFrontRightEnergy"@, BinOp::Add, "DelayFrontLeftEnergy"@, Some(2_000)),
            pair_formula(mid, "DelayBackRightEnergy"@, BinOp::Add, "DelayBackLeftEnergy"@, Some(2_000)),
            pair_formula(mid, "DelayFrontLeftTime"@, BinOp::Sub, "AnodeFrontTime"@, None::<i64>),
            pair_formula(mid, "DelayFrontRightTime"@, BinOp::Sub, "AnodeFrontTime"@, None::<i64>),
            pair_formula(mid, "DelayBackLeftTime"@, BinOp::Sub, "AnodeFrontTime"@, None::<i64>),
            pair_formula(mid, "DelayBackRightTime"@, BinOp::Sub, "AnodeFrontTime"@, None::<i64>),
            pair_formula(mid, "DelayFrontLeftTime"@, BinOp::Sub, "AnodeBackTime"@, None::<i64>),
            pair_formula(mid, "DelayFrontRightTime"@, BinOp::Sub, "AnodeBackTime"@, None::<i64>),
            pair_formula(mid, "DelayBackLeftTime"@, BinOp::Sub, "AnodeBackTime"@, None::<i64>),
            pair_formula(mid, "DelayBackRightTime"@, BinOp::Sub, "AnodeBackTime"@, None::<i64>),
        ] + seq![
            pair_formula(names, "AnodeFrontTime"@, BinOp::Sub, "AnodeBackTime"@, None::<i64>),
            pair_formula(names, "AnodeBackTime"@, BinOp::Sub, "AnodeFrontTime"@, None::<i64>),
            pair_formula(names, "AnodeFrontTime"@, BinOp::Sub, "ScintLeftTime"@, None::<i64>),
            pair_formula(names, "AnodeBackTime"@, BinOp::Sub, "ScintLeftTime"@, None::<i64>),
            pair_formula(names, "DelayFrontLeftTime"@, BinOp::Sub, "ScintLeftTime"@, None::<i64>),
            pair_formula(names, "DelayFrontRightTime"@, BinOp::Sub, "ScintLeftTime"@, None::<i64>),
            pair_formula(names, "DelayBackLeftTime"@, BinOp::Sub, "ScintLeftTime"@, None::<i64>),
            pair_formula(names, "DelayBackRightTime"@, BinOp::Sub, "ScintLeftTime"@, None::<i64>),
            pair_formula(names, "ScintRightTime"@, BinOp::Sub, "ScintLeftTime"@, None::<i64>),
        ] =~= battery_formulas(names));
}

proof fn lemma_columns_ready(b: Seq<Seq<char>>, names: Seq<Seq<char>>)
    requires
        names == b + derived_names(),
        battery_ready(b),
    ensures
        columns_ready(names),
{
    {
        let i = choose|i: int| 0 <= i < b.len() && b[i] == "Cebra0Energy"@;
        assert(names[i] == "Cebra0Energy"@);
    }
    {
        let i = choose|i: int| 0 <= i < b.len() && b[i] == "Cebra1Energy"@;
        assert(names[i] == "Cebra1Energy"@);
    }
    {
        let i = choose|i: int| 0 <= i < b.len() && b[i] == "Cebra2Energy"@;
        assert(names[i] == "Cebra2Energy"@);
    }
    {
        let i = choose|i: int| 0 <= i < b.len() && b[i] == "Cebra3Energy"@;
        assert(names[i] == "Cebra3Energy"@);
    }
    {
        let i = choose|i: int| 0 <= i < b.len() && b[i] == "Cebra4Energy"@;
        assert(names[i] == "Cebra4Energy"@);
    }
    {
        let i = choose|i: int| 0 <= i < b.len() && b[i] == "X1"@;
        assert(names[i] == "X1"@);
    }
    {
        let i = choose|i: int| 0 <= i < b.len() && b[i] == "X2"@;
        assert(names[i] == "X2"@);
    }
    {
        let i = choose|i: int| 0 <= i < b.len() && b[i] == "DelayBackRightEnergy"@;
        assert(names[i] == "DelayBackRightEnergy"@);
    }
    {
        let i = choose|i: int| 0 <= i < b.len() && b[i] == "DelayBackLeftEnergy"@;
        assert(names[i] == "DelayBackLeftEnergy"@);
    }
    {
        let i = choose|i: int| 0 <= i < b.len() && b[i] == "DelayFrontRightEnergy"@;
        assert(names[i] == "DelayFrontRightEnergy"@);
    }
    {
        let i = choose|i: int| 0 <= i < b.len() && b[i] == "DelayFrontLeftEnergy"@;
        assert(names[i] == "DelayFrontLeftEnergy"@);
    }
    {
        let i = choose|i: int| 0 <= i < b.len() && b[i] == "Xavg"@;
        assert(names[i] == "Xavg"@);
    }
    assert(names[b.len() + 0int] == "DelayFrontAverageEnergy"@);
    assert(names[b.len() + 1int] == "DelayBackAverageEnergy"@);
    {
        let i = choose|i: int| 0 <= i < b.len() && b[i] == "ScintLeftEnergy"@;
        assert(names[i] == "ScintLeftEnergy"@);
    }
    {
        let i = choose|i: int| 0 <= i < b.len() && b[i] == "AnodeBackEnergy"@;
        assert(names[i] == "AnodeBackEnergy"@);
    }
    {
        let i = choose|i: int| 0 <= i < b.len() && b[i] == "AnodeFrontEnergy"@;
        assert(names[i] == "AnodeFrontEnergy"@);
    }
    {
        let i = choose|i: int| 0 <= i < b.len() && b[i] == "CathodeEnergy"@;
        assert(names[i] == "CathodeEnergy"@);
    }
    {
        let i = choose|i: int| 0 <= i < b.len() && b[i] == "ScintRightEnergy"@;
        assert(names[i] == "ScintRightEnergy"@);
    }
    {
        let i = choose|i: int| 0 <= i < b.len() && b[i] == "Theta"@;
        assert(names[i] == "Theta"@);
    }
    assert(names[b.len() + 2int] == "DelayFrontLeftTime_AnodeFrontTime"@);
    assert(names[b.len() + 3int] == "DelayFrontRightTime_AnodeFrontTime"@);
    assert(names[b.len() + 8int] == "DelayBackLeftTime_AnodeBackTime"@);
    assert(names[b.len() + 9int] == "DelayBackRightTime_AnodeBackTime"@);
    assert(names[b.len() + 4int] == "DelayBackLeftTime_AnodeFrontTime"@);
    assert(names[b.len() + 5int] == "DelayBackRightTime_AnodeFrontTime"@);
    assert(names[b.len() + 6int] == "DelayFrontLeftTime_AnodeBackTime"@);
    assert(names[b.len() + 7int] == "DelayFrontRightTime_AnodeBackTime"@);
    assert(names[b.len() + 10int] == "AnodeFrontTime_AnodeBackTime"@);
    assert(names[b.len() + 11int] == "AnodeBackTime_AnodeFrontTime"@);
    assert(names[b.len() + 12int] == "AnodeFrontTime_ScintLeftTime"@);
    assert(names[b.len() + 13int] == "AnodeBackTime_ScintLeftTime"@);
    assert(names[b.len() + 14int] == "DelayFrontLeftTime_ScintLeftTime"@);
    assert(names[b.len() + 15int] == "DelayFrontRightTime_ScintLeftTime"@);
    assert(names[b.len() + 16int] == "DelayBackLeftTime_ScintLeftTime"@);
    assert(names[b.len() + 17int] == "DelayBackRightTime_ScintLeftTime"@);
    assert(names[b.len() + 18int] == "ScintRightTime_ScintLeftTime"@);
}

proof fn lemma_second_part_ready(b: Seq<Seq<char>>, mid: Seq<Seq<char>>)
    requires
        battery_ready(b),
        mid == b + seq!["DelayFrontAverageEnergy"@, "DelayBackAverageEnergy"@, "DelayFrontLeftTime_AnodeFrontTime"@, "DelayFrontRightTime_AnodeFrontTime"@, "DelayBackLeftTime_AnodeFrontTime"@, "DelayBackRightTime_AnodeFrontTime"@, "DelayFrontLeftTime_AnodeBackTime"@, "DelayFrontRightTime_AnodeBackTime"@, "DelayBackLeftTime_AnodeBackTime"@, "DelayBackRightTime_AnodeBackTime"@],
    ensures
        mid.contains("AnodeFrontTime"@),
        mid.contains("AnodeBackTime"@),
        mid.contains("ScintLeftTime"@),
        mid.contains("DelayFrontLeftTime"@),
        mid.contains("DelayFrontRightTime"@),
        mid.contains("DelayBackLeftTime"@),
        mid.contains("DelayBackRightTime"@),
        mid.contains("ScintRightTime"@),
        !mid.contains("AnodeFrontTime_AnodeBackTime"@),
        !mid.contains("AnodeBackTime_AnodeFrontTime"@),
        !mid.contains("AnodeFrontTime_ScintLeftTime"@),
        !mid.contains("AnodeBackTime_ScintLeftTime"@),
        !mid.contains("DelayFrontLeftTime_ScintLeftTime"@),
        !mid.contains("DelayFrontRightTime_ScintLeftTime"@),
        !mid.contains("DelayBackLeftTime_ScintLeftTime"@),
        !mid.contains("DelayBackRightTime_ScintLeftTime"@),
        !mid.contains("ScintRightTime_ScintLeftTime"@),
{
        reveal_strlit("AnodeBackTime_AnodeFrontTime");
        reveal_strlit("AnodeBackTime_ScintLeftTime");
        reveal_strlit("AnodeFrontTime_AnodeBackTime");
        reveal_strlit("AnodeFrontTime_ScintLeftTime");
        reveal_strlit("DelayBackAverageEnergy");
        reveal_strlit("DelayBackLeftTime_AnodeBackTime");
        reveal_strlit("DelayBackLeftTime_AnodeFrontTime");
        reveal_strlit("DelayBackLeftTime_ScintLeftTime");
        reveal_strlit("DelayBackRightTime_AnodeBackTime");
        reveal_strlit("DelayBackRightTime_AnodeFrontTime");
        reveal_strlit("DelayBackRightTime_ScintLeftTime");
        reveal_strlit("DelayFrontAverageEnergy");
        reveal_strlit("DelayFrontLeftTime_AnodeBackTime");
        reveal_strlit("DelayFrontLeftTime_AnodeFrontTime");
        reveal_strlit("DelayFrontLeftTime_ScintLeftTime");
        reveal_strlit("DelayFrontRightTime_AnodeBackTime");
        reveal_strlit("DelayFrontRightTime_AnodeFrontTime");
        reveal_strlit("DelayFrontRightTime_ScintLeftTime");
        reveal_strlit("ScintRightTime_ScintLeftTime");
        assert("AnodeBackTime_AnodeFrontTime"@.len() == 28);
        assert("AnodeBackTime_ScintLeftTime"@.len() == 27);
        assert("AnodeFrontTime_AnodeBackTime"@.len() == 28);
        assert("AnodeFrontTime_ScintLeftTime"@.len() == 28);
        assert("DelayBackAverageEnergy"@.len() == 22);
        assert("DelayBackLeftTime_AnodeBackTime"@.len() == 31);
        assert("DelayBackLeftTime_AnodeFrontTime"@.len() == 32);
        assert("DelayBackLeftTime_ScintLeftTime"@.len() == 31);
        assert("DelayBackRightTime_AnodeBackTime"@.len() == 32);
        assert("DelayBackRightTime_AnodeFrontTime"@.len() == 33);
        assert("DelayBackRightTime_ScintLeftTime"@.len() == 32);
        assert("DelayFrontAverageEnergy"@.len() == 23);
        assert("DelayFrontLeftTime_AnodeBackTime"@.len() == 32);
        assert("DelayFrontLeftTime_AnodeFrontTime"@.len() == 33);
        assert("DelayFrontLeftTime_ScintLeftTime"@.len() == 32);
        assert("DelayFrontRightTime_AnodeBackTime"@.len() == 33);
        assert("DelayFrontRightTime_AnodeFrontTime"@.len() == 34);
        assert("DelayFrontRightTime_ScintLeftTime"@.len() == 33);
        assert("ScintRightTime_ScintLeftTime"@.len() == 28);
        assert("DelayFrontLeftTime_AnodeFrontTime"@[5] != "DelayBackRightTime_AnodeFrontTime"@[5]);
        assert("DelayBackLeftTime_AnodeFrontTime"@[5] != "DelayFrontLeftTime_AnodeBackTime"@[5]);
        assert("DelayFrontLeftTime_AnodeFrontTime"@[10] != "DelayFrontRightTime_AnodeBackTime"@[10]);
        assert("DelayBackRightTime_AnodeFrontTime"@[5] != "DelayFrontRightTime_AnodeBackTime"@[5]);
        assert("DelayBackLeftTime_AnodeFrontTime"@[9] != "DelayBackRightTime_AnodeBackTime"@[9]);
        assert("DelayFrontLeftTime_AnodeBackTime"@[5] != "DelayBackRightTime_AnodeBackTime"@[5]);
        assert("AnodeFrontTime_AnodeBackTime"@[5] != "AnodeBackTime_AnodeFrontTime"@[5]);
        assert("AnodeFrontTime_AnodeBackTime"@[15] != "AnodeFrontTime_ScintLeftTime"@[15]);
        assert("AnodeBackTime_AnodeFrontTime"@[5] != "AnodeFrontTime_ScintLeftTime"@[5]);
        assert("DelayBackLeftTime_AnodeFrontTime"@[5] != "DelayFrontLeftTime_ScintLeftTime"@[5]);
        assert("DelayFrontLeftTime_AnodeBackTime"@[19] != "DelayFrontLeftTime_ScintLeftTime"@[19]);
        assert("DelayBackRightTime_AnodeBackTime"@[5] != "DelayFrontLeftTime_ScintLeftTime"@[5]);
        assert("DelayFrontLeftTime_AnodeFrontTime"@[10] != "DelayFrontRightTime_ScintLeftTime"@[10]);
        assert("DelayBackRightTime_AnodeFrontTime"@[5] != "DelayFrontRightTime_ScintLeftTime"@[5]);
        assert("DelayFrontRightTime_AnodeBackTime"@[20] != "DelayFrontRightTime_ScintLeftTime"@[20]);
        assert("DelayBackLeftTime_AnodeBackTime"@[18] != "DelayBackLeftTime_ScintLeftTime"@[18]);
        assert("DelayBackLeftTime_AnodeFrontTime"@[9] != "DelayBackRightTime_ScintLeftTime"@[9]);
        assert("DelayFrontLeftTime_AnodeBackTime"@[5] != "DelayBackRightTime_ScintLeftTime"@[5]);
        assert("DelayBackRightTime_AnodeBackTime"@[19] != "DelayBackRightTime_ScintLeftTime"@[19]);
        assert("DelayFrontLeftTime_ScintLeftTime"@[5] != "DelayBackRightTime_ScintLeftTime"@[5]);
        assert("AnodeFrontTime_AnodeBackTime"@[0] != "ScintRightTime_ScintLeftTime"@[0]);
        assert("AnodeBackTime_AnodeFrontTime"@[0] != "ScintRightTime_ScintLeftTime"@[0]);
        assert("AnodeFrontTime_ScintLeftTime"@[0] != "ScintRightTime_ScintLeftTime"@[0]);
        reveal_strlit("DelayFrontRightEnergy");
        reveal_strlit("DelayFrontLeftEnergy");
        reveal_strlit("DelayBackRightEnergy");
        reveal_strlit("DelayBackLeftEnergy");
        reveal_strlit("DelayFrontLeftTime");
        reveal_strlit("AnodeFrontTime");
        reveal_strlit("DelayFrontRightTime");
        reveal_strlit("DelayBackLeftTime");
        reveal_strlit("DelayBackRightTime");
        reveal_strlit("AnodeBackTime");
        reveal_strlit("ScintLeftTime");
        reveal_strlit("ScintRightTime");
        reveal_strlit("Cebra0Energy");
        reveal_strlit("Cebra1Energy");
        reveal_strlit("Cebra2Energy");
        reveal_strlit("Cebra3Energy");
        reveal_strlit("Cebra4Energy");
        reveal_strlit("X1");
        reveal_strlit("X2");
        reveal_strlit("Xavg");
        reveal_strlit("ScintLeftEnergy");
        reveal_strlit("AnodeBackEnergy");
        reveal_strlit("AnodeFrontEnergy");
        reveal_strlit("CathodeEnergy");
        reveal_strlit("ScintRightEnergy");
        reveal_strlit("Theta");
    {
        let i = choose|i: int| 0 <= i < b.len() && b[i] == "AnodeFrontTime"@;
        assert(mid[i] == "AnodeFrontTime"@);
    }
    {
        let i = choose|i: int| 0 <= i < b.len() && b[i] == "AnodeBackTime"@;
        assert(mid[i] == "AnodeBackTime"@);
    }
    {
        let i = choose|i: int| 0 <= i < b.len() && b[i] == "ScintLeftTime"@;
        assert(mid[i] == "ScintLeftTime"@);
    }
    {
        let i = choose|i: int| 0 <= i < b.len() && b[i] == "DelayFrontLeftTime"@;
        assert(mid[i] == "DelayFrontLeftTime"@);
    }
    {
        let i = choose|i: int| 0 <= i < b.len() && b[i] == "DelayFrontRightTime"@;
        assert(mid[i] == "DelayFrontRightTime"@);
    }
    {
        let i = choose|i: int| 0 <= i < b.len() && b[i] == "DelayBackLeftTime"@;
        assert(mid[i] == "DelayBackLeftTime"@);
    }
    {
        let i = choose|i: int| 0 <= i < b.len() && b[i] == "DelayBackRightTime"@;
        assert(mid[i] == "DelayBackRightTime"@);
    }
    {
        let i = choose|i: int| 0 <= i < b.len() && b[i] == "ScintRightTime"@;
        assert(mid[i] == "ScintRightTime"@);
    }
}

/// The dataset context of the battery: `base_columns`, the derived columns,
/// and four views besides the base view: both wire planes hit (1), only the
/// first (2), only the second (3), and a back-anode and scintillator time (4).
#[verifier::rlimit(100)]
pub fn build_context(base_columns: Vec<String>) -> (r: Result<Dataset, HistError>)
    ensures
        r matches Ok(ds) ==> {
            &&& ds.wf()
            &&& ds.n_base == base_columns@.len()
            &&& ds.derived@.len() == 19
            &&& ds.views@.len() == 5
            &&& ds.names() == name_seq(base_columns@) + derived_names()
            &&& ds.derived@ == battery_formulas(ds.names())
            &&& ds.views@[1].parent == Some(0usize)
            &&& ds.views@[1].filters@ == hit_filters(ds.names(), "X1"@, Comparator::Neq, "X2"@, Comparator::Neq)
            &&& ds.views@[2].parent == Some(0usize)
            &&& ds.views@[2].filters@ == hit_filters(ds.names(), "X1"@, Comparator::Neq, "X2"@, Comparator::Eq)
            &&& ds.views@[3].parent == Some(0usize)
            &&& ds.views@[3].filters@ == hit_filters(ds.names(), "X2"@, Comparator::Neq, "X1"@, Comparator::Eq)
            &&& ds.views@[4].parent == Some(0usize)
            &&& ds.views@[4].filters@ == hit_filters(ds.names(), "AnodeBackTime"@, Comparator::Neq, "ScintLeftTime"@, Comparator::Neq)
        },
        battery_ready(name_seq(base_columns@)) ==> (r matches Ok(ds) && columns_ready(ds.names())),
        !distinct(name_seq(base_columns@)) ==> r is Err && r->Err_0 is DuplicateName,
        r matches Err(x) ==> x is DuplicateName || x is UnknownColumn,
{
    let ghost b = name_seq(base_columns@);
    let mut ds = Dataset::new(base_columns)?;
    proof {
        assert(ds.names() == b);
        assert(ds.derived@ =~= Seq::<Formula>::empty());
    }
    derive_part_1(&mut ds)?;
    let ghost n_mid = ds.names();
    proof {
        if battery_ready(b) {
            lemma_second_part_ready(b, n_mid);
        }
    }
    derive_part_2(&mut ds)?;
    battery_views(&mut ds)?;
    proof {
        assert(ds.names() =~= b + derived_names());
        assert(col(n_mid, "DelayFrontRightEnergy"@) == col(ds.names(), "DelayFrontRightEnergy"@));
        assert(col(n_mid, "DelayFrontLeftEnergy"@) == col(ds.names(), "DelayFrontLeftEnergy"@));
        assert(col(n_mid, "DelayBackRightEnergy"@) == col(ds.names(), "DelayBackRightEnergy"@));
        assert(col(n_mid, "DelayBackLeftEnergy"@) == col(ds.names(), "DelayBackLeftEnergy"@));
        assert(col(n_mid, "DelayFrontLeftTime"@) == col(ds.names(), "DelayFrontLeftTime"@));
        assert(col(n_mid, "AnodeFrontTime"@) == col(ds.names(), "AnodeFrontTime"@));
        assert(col(n_mid, "DelayFrontRightTime"@) == col(ds.names(), "DelayFrontRightTime"@));
        assert(col(n_mid, "DelayBackLeftTime"@) == col(ds.names(), "DelayBackLeftTime"@));
        assert(col(n_mid, "DelayBackRightTime"@) == col(ds.names(), "DelayBackRightTime"@));
        assert(col(n_mid, "AnodeBackTime"@) == col(ds.names(), "AnodeBackTime"@));
        lemma_battery_formulas(n_mid, ds.names());
        if battery_ready(b) {
            lemma_columns_ready(b, ds.names());
        }
    }
    Ok(ds)
}

/// Registers the histograms on the unfiltered view.
#[verifier::rlimit(100)]
fn register_base(ds: &Dataset, reg: &mut Registry) -> (r: Result<(), HistError>)
    requires
        ds.wf(),
        old(reg).valid_for(ds),
        ds.views@.len() >= 5,
        !old(reg).names().contains("Cebra0Energy"@),
        !old(reg).names().contains("Cebra1Energy"@),
        !old(reg).names().contains("Cebra2Energy"@),
        !old(reg).names().contains("Cebra3Energy"@),
        !old(reg).names().contains("Cebra4Energy"@),
        !old(reg).names().contains("X1"@),
        !old(reg).names().contains("X2"@),
        !old(reg).names().contains("X2 v X1"@),
        !old(reg).names().contains("DelayBackRight v X1"@),
        !old(reg).names().contains("DelayBackLeft v X1"@),
        !old(reg).names().contains("DelayFrontRight v X1"@),
        !old(reg).names().contains("DelayFrontLeft v X1"@),
        !old(reg).names().contains("DelayBackRight v X2"@),
        !old(reg).names().contains("DelayBackLeft v X2"@),
        !old(reg).names().contains("DelayFrontRight v X2"@),
        !old(reg).names().contains("DelayFrontLeft v X2"@),
        !old(reg).names().contains("DelayBackRight v Xavg"@),
        !old(reg).names().contains("DelayBackLeft v Xavg"@),
        !old(reg).names().contains("DelayFrontRight v Xavg"@),
        !old(reg).names().contains("DelayFrontLeft v Xavg"@),
        !old(reg).names().contains("DelayFrontAverage v X1"@),
        !old(reg).names().contains("DelayBackAverage v X1"@),
        !old(reg).names().contains("DelayFrontAverage v X2"@),
        !old(reg).names().contains("DelayBackAverage v X2"@),
        !old(reg).names().contains("DelayFrontAverage v Xavg"@),
        !old(reg).names().contains("DelayBackAverage v Xavg"@),
        !old(reg).names().contains("AnodeBack v ScintLeft"@),
        !old(reg).names().contains("AnodeFront v ScintLeft"@),
        !old(reg).names().contains("Cathode v ScintLeft"@),
        !old(reg).names().contains("AnodeBack v ScintRight"@),
        !old(reg).names().contains("AnodeFront v ScintRight"@),
        !old(reg).names().contains("Cathode v ScintRight"@),
        !old(reg).names().contains("ScintLeft v X1"@),
        !old(reg).names().contains("ScintLeft v X2"@),
        !old(reg).names().contains("ScintLeft v Xavg"@),
        !old(reg).names().contains("ScintRight v X1"@),
        !old(reg).names().contains("ScintRight v X2"@),
        !old(reg).names().contains("ScintRight v Xavg"@),
        !old(reg).names().contains("AnodeBack v X1"@),
        !old(reg).names().contains("AnodeBack v X2"@),
        !old(reg).names().contains("AnodeBack v Xavg"@),
        !old(reg).names().contains("AnodeFront v X1"@),
        !old(reg).names().contains("AnodeFront v X2"@),
        !old(reg).names().contains("AnodeFront v Xavg"@),
        !old(reg).names().contains("Cathode v X1"@),
        !old(reg).names().contains("Cathode v X2"@),
        !old(reg).names().contains("Cathode v Xavg"@),
    ensures
        final(reg).valid_for(ds),
        r is Ok ==> final(reg).hists@.len() == old(reg).hists@.len() + 47,
        r is Ok ==> final(reg).names() == old(reg).names().push("Cebra0Energy"@).push("Cebra1Energy"@).push("Cebra2Energy"@).push("Cebra3Energy"@).push("Cebra4Energy"@).push("X1"@).push("X2"@).push("X2 v X1"@).push("DelayBackRight v X1"@).push("DelayBackLeft v X1"@).push("DelayFrontRight v X1"@).push("DelayFrontLeft v X1"@).push("DelayBackRight v X2"@).push("DelayBackLeft v X2"@).push("DelayFrontRight v X2"@).push("DelayFrontLeft v X2"@).push("DelayBackRight v Xavg"@).push("DelayBackLeft v Xavg"@).push("DelayFrontRight v Xavg"@).push("DelayFrontLeft v Xavg"@).push("DelayFrontAverage v X1"@).push("DelayBackAverage v X1"@).push("DelayFrontAverage v X2"@).push("DelayBackAverage v X2"@).push("DelayFrontAverage v Xavg"@).push("DelayBackAverage v Xavg"@).push("AnodeBack v ScintLeft"@).push("AnodeFront v ScintLeft"@).push("Cathode v ScintLeft"@).push("AnodeBack v ScintRight"@).push("AnodeFront v ScintRight"@).push("Cathode v ScintRight"@).push("ScintLeft v X1"@).push("ScintLeft v X2"@).push("ScintLeft v Xavg"@).push("ScintRight v X1"@).push("ScintRight v X2"@).push("ScintRight v Xavg"@).push("AnodeBack v X1"@).push("AnodeBack v X2"@).push("AnodeBack v Xavg"@).push("AnodeFront v X1"@).push("AnodeFront v X2"@).push("AnodeFront v Xavg"@).push("Cathode v X1"@).push("Cathode v X2"@).push("Cathode v Xavg"@),
        r is Ok ==> final(reg).defs() == old(reg).defs().push(def1(ds.names(), "Cebra0Energy"@, 0, "Cebra0Energy"@, CAEN_BINS, CAEN_LOW, CAEN_HIGH)).push(def1(ds.names(), "Cebra1Energy"@, 0, "Cebra1Energy"@, CAEN_BINS, CAEN_LOW, CAEN_HIGH)).push(def1(ds.names(), "Cebra2Energy"@, 0, "Cebra2Energy"@, CAEN_BINS, CAEN_LOW, CAEN_HIGH)).push(def1(ds.names(), "Cebra3Energy"@, 0, "Cebra3Energy"@, CAEN_BINS, CAEN_LOW, CAEN_HIGH)).push(def1(ds.names(), "Cebra4Energy"@, 0, "Cebra4Energy"@, CAEN_BINS, CAEN_LOW, CAEN_HIGH)).push(def1(ds.names(), "X1"@, 0, "X1"@, FP_BINS, FP_LOW, FP_HIGH)).push(def1(ds.names(), "X2"@, 0, "X2"@, FP_BINS, FP_LOW, FP_HIGH)).push(def2(ds.names(), "X2 v X1"@, 0, "X1"@, "X2"@, (FP_BINS, FP_LOW, FP_HIGH), (FP_BINS, FP_LOW, FP_HIGH))).push(def2(ds.names(), "DelayBackRight v X1"@, 0, "X1"@, "DelayBackRightEnergy"@, (FP_BINS, FP_LOW, FP_HIGH), (CAEN_BINS, CAEN_LOW, CAEN_HIGH))).push(def2(ds.names(), "DelayBackLeft v X1"@, 0, "X1"@, "DelayBackLeftEnergy"@, (FP_BINS, FP_LOW, FP_HIGH), (CAEN_BINS, CAEN_LOW, CAEN_HIGH))).push(def2(ds.names(), "DelayFrontRight v X1"@, 0, "X1"@, "DelayFrontRightEnergy"@, (FP_BINS, FP_LOW, FP_HIGH), (CAEN_BINS, CAEN_LOW, CAEN_HIGH))).push(def2(ds.names(), "DelayFrontLeft v X1"@, 0, "X1"@, "DelayFrontLeftEnergy"@, (FP_BINS, FP_LOW, FP_HIGH), (CAEN_BINS, CAEN_LOW, CAEN_HIGH))).push(def2(ds.names(), "DelayBackRight v X2"@, 0, "X2"@, "DelayBackRightEnergy"@, (FP_BINS, FP_LOW, FP_HIGH), (CAEN_BINS, CAEN_LOW, CAEN_HIGH))).push(def2(ds.names(), "DelayBackLeft v X2"@, 0, "X2"@, "DelayBackLeftEnergy"@, (FP_BINS, FP_LOW, FP_HIGH), (CAEN_BINS, CAEN_LOW, CAEN_HIGH))).push(def2(ds.names(), "DelayFrontRight v X2"@, 0, "X2"@, "DelayFrontRightEnergy"@, (FP_BINS, FP_LOW, FP_HIGH), (CAEN_BINS, CAEN_LOW, CAEN_HIGH))).push(def2(ds.names(), "DelayFrontLeft v X2"@, 0, "X2"@, "DelayFrontLeftEnergy"@, (FP_BINS, FP_LOW, FP_HIGH), (CAEN_BINS, CAEN_LOW, CAEN_HIGH))).push(def2(ds.names(), "DelayBackRight v Xavg"@, 0, "Xavg"@, "DelayBackRightEnergy"@, (FP_BINS, FP_LOW, FP_HIGH), (CAEN_BINS, CAEN_LOW, CAEN_HIGH))).push(def2(ds.names(), "DelayBackLeft v Xavg"@, 0, "Xavg"@, "DelayBackLeftEnergy"@, (FP_BINS, FP_LOW, FP_HIGH), (CAEN_BINS, CAEN_LOW, CAEN_HIGH))).push(def2(ds.names(), "DelayFrontRight v Xavg"@, 0, "Xavg"@, "DelayFrontRightEnergy"@, (FP_BINS, FP_LOW, FP_HIGH), (CAEN_BINS, CAEN_LOW, CAEN_HIGH))).push(def2(ds.names(), "DelayFrontLeft v Xavg"@, 0, "Xavg"@, "DelayFrontLeftEnergy"@, (FP_BINS, FP_LOW, FP_HIGH), (CAEN_BINS, CAEN_LOW, CAEN_HIGH))).push(def2(ds.names(), "DelayFrontAverage v X1"@, 0, "X1"@, "DelayFrontAverageEnergy"@, (FP_BINS, FP_LOW, FP_HIGH), (CAEN_BINS, CAEN_LOW, CAEN_HIGH))).push(def2(ds.names(), "DelayBackAverage v X1"@, 0, "X1"@, "DelayBackAverageEnergy"@, (FP_BINS, FP_LOW, FP_HIGH), (CAEN_BINS, CAEN_LOW, CAEN_HIGH))).push(def2(ds.names(), "DelayFrontAverage v X2"@, 0, "X2"@, "DelayFrontAverageEnergy"@, (FP_BINS, FP_LOW, FP_HIGH), (CAEN_BINS, CAEN_LOW, CAEN_HIGH))).push(def2(ds.names(), "DelayBackAverage v X2"@, 0, "X2"@, "DelayBackAverageEnergy"@, (FP_BINS, FP_LOW, FP_HIGH), (CAEN_BINS, CAEN_LOW, CAEN_HIGH))).push(def2(ds.names(), "DelayFrontAverage v Xavg"@, 0, "Xavg"@, "DelayFrontAverageEnergy"@, (FP_BINS, FP_LOW, FP_HIGH), (CAEN_BINS, CAEN_LOW, CAEN_HIGH))).push(def2(ds.names(), "DelayBackAverage v Xavg"@, 0, "Xavg"@, "DelayBackAverageEnergy"@, (FP_BINS, FP_LOW, FP_HIGH), (CAEN_BINS, CAEN_LOW, CAEN_HIGH))).push(def2(ds.names(), "AnodeBack v ScintLeft"@, 0, "ScintLeftEnergy"@, "AnodeBackEnergy"@, (CAEN_BINS, CAEN_LOW, CAEN_HIGH), (CAEN_BINS, CAEN_LOW, CAEN_HIGH))).push(def2(ds.names(), "AnodeFront v ScintLeft"@, 0, "ScintLeftEnergy"@, "AnodeFrontEnergy"@, (CAEN_BINS, CAEN_LOW, CAEN_HIGH), (CAEN_BINS, CAEN_LOW, CAEN_HIGH))).push(def2(ds.names(), "Cathode v ScintLeft"@, 0, "ScintLeftEnergy"@, "CathodeEnergy"@, (CAEN_BINS, CAEN_LOW, CAEN_HIGH), (CAEN_BINS, CAEN_LOW, CAEN_HIGH))).push(def2(ds.names(), "AnodeBack v ScintRight"@, 0, "ScintRightEnergy"@, "AnodeBackEnergy"@, (CAEN_BINS, CAEN_LOW, CAEN_HIGH), (CAEN_BINS, CAEN_LOW, CAEN_HIGH))).push(def2(ds.names(), "AnodeFront v ScintRight"@, 0, "ScintRightEnergy"@, "AnodeFrontEnergy"@, (CAEN_BINS, CAEN_LOW, CAEN_HIGH), (CAEN_BINS, CAEN_LOW, CAEN_HIGH))).push(def2(ds.names(), "Cathode v ScintRight"@, 0, "ScintRightEnergy"@, "CathodeEnergy"@, (CAEN_BINS, CAEN_LOW, CAEN_HIGH), (CAEN_BINS, CAEN_LOW, CAEN_HIGH))).push(def2(ds.names(), "ScintLeft v X1"@, 0, "X1"@, "ScintLeftEnergy"@, (FP_BINS, FP_LOW, FP_HIGH), (CAEN_BINS, CAEN_LOW, CAEN_HIGH))).push(def2(ds.names(), "ScintLeft v X2"@, 0, "X2"@, "ScintLeftEnergy"@, (FP_BINS, FP_LOW, FP_HIGH), (CAEN_BINS, CAEN_LOW, CAEN_HIGH))).push(def2(ds.names(), "ScintLeft v Xavg"@, 0, "Xavg"@, "ScintLeftEnergy"@, (FP_BINS, FP_LOW, FP_HIGH), (CAEN_BINS, CAEN_LOW, CAEN_HIGH))).push(def2(ds.names(), "ScintRight v X1"@, 0, "X1"@, "ScintRightEnergy"@, (FP_BINS, FP_LOW, FP_HIGH), (CAEN_BINS, CAEN_LOW, CAEN_HIGH))).push(def2(ds.names(), "ScintRight v X2"@, 0, "X2"@, "ScintRightEnergy"@, (FP_BINS, FP_LOW, FP_HIGH), (CAEN_BINS, CAEN_LOW, CAEN_HIGH))).push(def2(ds.names(), "ScintRight v Xavg"@, 0, "Xavg"@, "ScintRightEnergy"@, (FP_BINS, FP_LOW, FP_HIGH), (CAEN_BINS, CAEN_LOW, CAEN_HIGH))).push(def2(ds.names(), "AnodeBack v X1"@, 0, "X1"@, "AnodeBackEnergy"@, (FP_BINS, FP_LOW, FP_HIGH), (CAEN_BINS, CAEN_LOW, CAEN_HIGH))).push(def2(ds.names(), "AnodeBack v X2"@, 0, "X2"@, "AnodeBackEnergy"@, (FP_BINS, FP_LOW, FP_HIGH), (CAEN_BINS, CAEN_LOW, CAEN_HIGH))).push(def2(ds.names(), "AnodeBack v Xavg"@, 0, "Xavg"@, "AnodeBackEnergy"@, (FP_BINS, FP_LOW, FP_HIGH), (CAEN_BINS, CAEN_LOW, CAEN_HIGH))).push(def2(ds.names(), "AnodeFront v X1"@, 0, "X1"@, "AnodeFrontEnergy"@, (FP_BINS, FP_LOW, FP_HIGH), (CAEN_BINS, CAEN_LOW, CAEN_HIGH))).push(def2(ds.names(), "AnodeFront v X2"@, 0, "X2"@, "AnodeFrontEnergy"@, (FP_BINS, FP_LOW, FP_HIGH), (CAEN_BINS, CAEN_LOW, CAEN_HIGH))).push(def2(ds.names(), "AnodeFront v Xavg"@, 0, "Xavg"@, "AnodeFrontEnergy"@, (FP_BINS, FP_LOW, FP_HIGH), (CAEN_BINS, CAEN_LOW, CAEN_HIGH))).push(def2(ds.names(), "Cathode v X1"@, 0, "X1"@, "CathodeEnergy"@, (FP_BINS, FP_LOW, FP_HIGH), (CAEN_BINS, CAEN_LOW, CAEN_HIGH))).push(def2(ds.names(), "Cathode v X2"@, 0, "X2"@, "CathodeEnergy"@, (FP_BINS, FP_LOW, FP_HIGH), (CAEN_BINS, CAEN_LOW, CAEN_HIGH))).push(def2(ds.names(), "Cathode v Xavg"@, 0, "Xavg"@, "CathodeEnergy"@, (FP_BINS, FP_LOW, FP_HIGH), (CAEN_BINS, CAEN_LOW, CAEN_HIGH))),
        columns_ready(ds.names()) ==> r is Ok,
        r matches Err(x) ==> x is DuplicateName || x is UnknownColumn,
{
    proof {
        reveal_strlit("AnodeBack v ScintLeft");
        reveal_strlit("AnodeBack v ScintRight");
        reveal_strlit("AnodeBack v X1");
        reveal_strlit("AnodeBack v X2");
        reveal_strlit("AnodeBack v Xavg");
        reveal_strlit("AnodeFront v ScintLeft");
        reveal_strlit("AnodeFront v ScintRight");
        reveal_strlit("AnodeFront v X1");
        reveal_strlit("AnodeFront v X2");
        reveal_strlit("AnodeFront v Xavg");
        reveal_strlit("Cathode v ScintLeft");
        reveal_strlit("Cathode v ScintRight");
        reveal_strlit("Cathode v X1");
        reveal_strlit("Cathode v X2");
        reveal_strlit("Cathode v Xavg");
        reveal_strlit("Cebra0Energy");
        reveal_strlit("Cebra1Energy");
        reveal_strlit("Cebra2Energy");
        reveal_strlit("Cebra3Energy");
        reveal_strlit("Cebra4Energy");
        reveal_strlit("DelayBackAverage v X1");
        reveal_strlit("DelayBackAverage v X2");
        reveal_strlit("DelayBackAverage v Xavg");
        reveal_strlit("DelayBackLeft v X1");
        reveal_strlit("DelayBackLeft v X2");
        reveal_strlit("DelayBackLeft v Xavg");
        reveal_strlit("DelayBackRight v X1");
        reveal_strlit("DelayBackRight v X2");
        reveal_strlit("DelayBackRight v Xavg");
        reveal_strlit("DelayFrontAverage v X1");
        reveal_strlit("DelayFrontAverage v X2");
        reveal_strlit("DelayFrontAverage v Xavg");
        reveal_strlit("DelayFrontLeft v X1");
        reveal_strlit("DelayFrontLeft v X2");
        reveal_strlit("DelayFrontLeft v Xavg");
        reveal_strlit("DelayFrontRight v X1");
        reveal_strlit("DelayFrontRight v X2");
        reveal_strlit("DelayFrontRight v Xavg");
        reveal_strlit("ScintLeft v X1");
        reveal_strlit("ScintLeft v X2");
        reveal_strlit("ScintLeft v Xavg");
        reveal_strlit("ScintRight v X1");
        reveal_strlit("ScintRight v X2");
        reveal_strlit("ScintRight v Xavg");
        reveal_strlit("X1");
        reveal_strlit("X2");
        reveal_strlit("X2 v X1");
        assert("AnodeBack v ScintLeft"@.len() == 21);
        assert("AnodeBack v ScintRight"@.len() == 22);
        assert("AnodeBack v X1"@.len() == 14);
        assert("AnodeBack v X2"@.len() == 14);
        assert("AnodeBack v Xavg"@.len() == 16);
        assert("AnodeFront v ScintLeft"@.len() == 22);
        assert("AnodeFront v ScintRight"@.len() == 23);
        assert("AnodeFront v X1"@.len() == 15);
        assert("AnodeFront v X2"@.len() == 15);
        assert("AnodeFront v Xavg"@.len() == 17);
        assert("Cathode v ScintLeft"@.len() == 19);
        assert("Cathode v ScintRight"@.len() == 20);
        assert("Cathode v X1"@.len() == 12);
        assert("Cathode v X2"@.len() == 12);
        assert("Cathode v Xavg"@.len() == 14);
        assert("Cebra0Energy"@.len() == 12);
        assert("Cebra1Energy"@.len() == 12);
        assert("Cebra2Energy"@.len() == 12);
        assert("Cebra3Energy"@.len() == 12);
        assert("Cebra4Energy"@.len() == 12);
        assert("DelayBackAverage v X1"@.len() == 21);
        assert("DelayBackAverage v X2"@.len() == 21);
        assert("DelayBackAverage v Xavg"@.len() == 23);
        assert("DelayBackLeft v X1"@.len() == 18);
        assert("DelayBackLeft v X2"@.len() == 18);
        assert("DelayBackLeft v Xavg"@.len() == 20);
        assert("DelayBackRight v X1"@.len() == 19);
        assert("DelayBackRight v X2"@.len() == 19);
        assert("DelayBackRight v Xavg"@.len() == 21);
        assert("DelayFrontAverage v X1"@.len() == 22);
        assert("DelayFrontAverage v X2"@.len() == 22);
        assert("DelayFrontAverage v Xavg"@.len() == 24);
        assert("DelayFrontLeft v X1"@.len() == 19);
        assert("DelayFrontLeft v X2"@.len() == 19);
        assert("DelayFrontLeft v Xavg"@.len() == 21);
        assert("DelayFrontRight v X1"@.len() == 20);
        assert("DelayFrontRight v X2"@.len() == 20);
        assert("DelayFrontRight v Xavg"@.len() == 22);
        assert("ScintLeft v X1"@.len() == 14);
        assert("ScintLeft v X2"@.len() == 14);
        assert("ScintLeft v Xavg"@.len() == 16);
        assert("ScintRight v X1"@.len() == 15);
        assert("ScintRight v X2"@.len() == 15);
        assert("ScintRight v Xavg"@.len() == 17);
        assert("X1"@.len() == 2);
        assert("X2"@.len() == 2);
        assert("X2 v X1"@.len() == 7);
        assert("Cebra0Energy"@[5] != "Cebra1Energy"@[5]);
        assert("Cebra0Energy"@[5] != "Cebra2Energy"@[5]);
        assert("Cebra1Energy"@[5] != "Cebra2Energy"@[5]);
        assert("Cebra0Energy"@[5] != "Cebra3Energy"@[5]);
        assert("Cebra1Energy"@[5] != "Cebra3Energy"@[5]);
        assert("Cebra2Energy"@[5] != "Cebra3Energy"@[5]);
        assert("Cebra0Energy"@[5] != "Cebra4Energy"@[5]);
        assert("Cebra1Energy"@[5] != "Cebra4Energy"@[5]);
        assert("Cebra2Energy"@[5] != "Cebra4Energy"@[5]);
        assert("Cebra3Energy"@[5] != "Cebra4Energy"@[5]);
        assert("X1"@[1] != "X2"@[1]);
        assert("DelayBackRight v X1"@[5] != "DelayFrontLeft v X1"@[5]);
        assert("DelayBackRight v X1"@[18] != "DelayBackRight v X2"@[18]);
        assert("DelayFrontLeft v X1"@[5] != "DelayBackRight v X2"@[5]);
        assert("DelayBackLeft v X1"@[17] != "DelayBackLeft v X2"@[17]);
        assert("DelayFrontRight v X1"@[19] != "DelayFrontRight v X2"@[19]);
        assert("DelayBackRight v X1"@[5] != "DelayFrontLeft v X2"@[5]);
        assert("DelayFrontLeft v X1"@[18] != "DelayFrontLeft v X2"@[18]);
        assert("DelayBackRight v X2"@[5] != "DelayFrontLeft v X2"@[5]);
        assert("DelayFrontRight v X1"@[5] != "DelayBackLeft v Xavg"@[5]);
        assert("DelayFrontRight v X2"@[5] != "DelayBackLeft v Xavg"@[5]);
        assert("DelayBackRight v Xavg"@[5] != "DelayFrontLeft v Xavg"@[5]);
        assert("DelayFrontRight v Xavg"@[10] != "DelayFrontAverage v X1"@[10]);
        assert("DelayBackRight v Xavg"@[9] != "DelayBackAverage v X1"@[9]);
        assert("DelayFrontLeft v Xavg"@[5] != "DelayBackAverage v X1"@[5]);
        assert("DelayFrontRight v Xavg"@[10] != "DelayFrontAverage v X2"@[10]);
        assert("DelayFrontAverage v X1"@[21] != "DelayFrontAverage v X2"@[21]);
        assert("DelayBackRight v Xavg"@[9] != "DelayBackAverage v X2"@[9]);
        assert("DelayFrontLeft v Xavg"@[5] != "DelayBackAverage v X2"@[5]);
        assert("DelayBackAverage v X1"@[20] != "DelayBackAverage v X2"@[20]);
        assert("DelayBackRight v Xavg"@[0] != "AnodeBack v ScintLeft"@[0]);
        assert("DelayFrontLeft v Xavg"@[0] != "AnodeBack v ScintLeft"@[0]);
        assert("DelayBackAverage v X1"@[0] != "AnodeBack v ScintLeft"@[0]);
        assert("DelayBackAverage v X2"@[0] != "AnodeBack v ScintLeft"@[0]);
        assert("DelayFrontRight v Xavg"@[0] != "AnodeFront v ScintLeft"@[0]);
        assert("DelayFrontAverage v X1"@[0] != "AnodeFront v ScintLeft"@[0]);
        assert("DelayFrontAverage v X2"@[0] != "AnodeFront v ScintLeft"@[0]);
        assert("DelayBackRight v X1"@[0] != "Cathode v ScintLeft"@[0]);
        assert("DelayFrontLeft v X1"@[0] != "Cathode v ScintLeft"@[0]);
        assert("DelayBackRight v X2"@[0] != "Cathode v ScintLeft"@[0]);
        assert("DelayFrontLeft v X2"@[0] != "Cathode v ScintLeft"@[0]);
        assert("DelayFrontRight v Xavg"@[0] != "AnodeBack v ScintRight"@[0]);
        assert("DelayFrontAverage v X1"@[0] != "AnodeBack v ScintRight"@[0]);
        assert("DelayFrontAverage v X2"@[0] != "AnodeBack v ScintRight"@[0]);
        assert("AnodeFront v ScintLeft"@[5] != "AnodeBack v ScintRight"@[5]);
        assert("DelayBackAverage v Xavg"@[0] != "AnodeFront v ScintRight"@[0]);
        assert("DelayFrontRight v X1"@[0] != "Cathode v ScintRight"@[0]);
        assert("DelayFrontRight v X2"@[0] != "Cathode v ScintRight"@[0]);
        assert("DelayBackLeft v Xavg"@[0] != "Cathode v ScintRight"@[0]);
        assert("ScintLeft v X1"@[13] != "ScintLeft v X2"@[13]);
        assert("ScintRight v X1"@[14] != "ScintRight v X2"@[14]);
        assert("ScintLeft v X1"@[0] != "AnodeBack v X1"@[0]);
        assert("ScintLeft v X2"@[0] != "AnodeBack v X1"@[0]);
        assert("ScintLeft v X1"@[0] != "AnodeBack v X2"@[0]);
        assert("ScintLeft v X2"@[0] != "AnodeBack v X2"@[0]);
        assert("AnodeBack v X1"@[13] != "AnodeBack v X2"@[13]);
        assert("ScintLeft v Xavg"@[0] != "AnodeBack v Xavg"@[0]);
        assert("ScintRight v X1"@[0] != "AnodeFront v X1"@[0]);
        assert("ScintRight v X2"@[0] != "AnodeFront v X1"@[0]);
        assert("ScintRight v X1"@[0] != "AnodeFront v X2"@[0]);
        assert("ScintRight v X2"@[0] != "AnodeFront v X2"@[0]);
        assert("AnodeFront v X1"@[14] != "AnodeFront v X2"@[14]);
        assert("ScintRight v Xavg"@[0] != "AnodeFront v Xavg"@[0]);
        assert("Cebra0Energy"@[1] != "Cathode v X1"@[1]);
        assert("Cebra1Energy"@[1] != "Cathode v X1"@[1]);
        assert("Cebra2Energy"@[1] != "Cathode v X1"@[1]);
        assert("Cebra3Energy"@[1] != "Cathode v X1"@[1]);
        assert("Cebra4Energy"@[1] != "Cathode v X1"@[1]);
        assert("Cebra0Energy"@[1] != "Cathode v X2"@[1]);
        assert("Cebra1Energy"@[1] != "Cathode v X2"@[1]);
        assert("Cebra2Energy"@[1] != "Cathode v X2"@[1]);
        assert("Cebra3Energy"@[1] != "Cathode v X2"@[1]);
        assert("Cebra4Energy"@[1] != "Cathode v X2"@[1]);
        assert("Cathode v X1"@[11] != "Cathode v X2"@[11]);
        assert("ScintLeft v X1"@[0] != "Cathode v Xavg"@[0]);
        assert("ScintLeft v X2"@[0] != "Cathode v Xavg"@[0]);
        assert("AnodeBack v X1"@[0] != "Cathode v Xavg"@[0]);
        assert("AnodeBack v X2"@[0] != "Cathode v Xavg"@[0]);
    }
    proof {
        assert(!reg.names().contains("Cebra0Energy"@));
        assert(columns_ready(ds.names()) ==> (ds.names().contains("Cebra0Energy"@)));
    }
    h1(ds, reg, "Cebra0Energy", 0, "Cebra0Energy", CAEN_BINS, CAEN_LOW, CAEN_HIGH)?;
    proof {
        assert(!reg.names().contains("Cebra1Energy"@));
        assert(columns_ready(ds.names()) ==> (ds.names().contains("Cebra1Energy"@)));
    }
    h1(ds, reg, "Cebra1Energy", 0, "Cebra1Energy", CAEN_BINS, CAEN_LOW, CAEN_HIGH)?;
    proof {
        assert(!reg.names().contains("Cebra2Energy"@));
        assert(columns_ready(ds.names()) ==> (ds.names().contains("Cebra2Energy"@)));
    }
    h1(ds, reg, "Cebra2Energy", 0, "Cebra2Energy", CAEN_BINS, CAEN_LOW, CAEN_HIGH)?;
    proof {
        assert(!reg.names().contains("Cebra3Energy"@));
        assert(columns_ready(ds.names()) ==> (ds.names().contains("Cebra3Energy"@)));
    }
    h1(ds, reg, "Cebra3Energy", 0, "Cebra3Energy", CAEN_BINS, CAEN_LOW, CAEN_HIGH)?;
    proof {
        assert(!reg.names().contains("Cebra4Energy"@));
        assert(columns_ready(ds.names()) ==> (ds.names().contains("Cebra4Energy"@)));
    }
    h1(ds, reg, "Cebra4Energy", 0, "Cebra4Energy", CAEN_BINS, CAEN_LOW, CAEN_HIGH)?;
    proof {
        assert(!reg.names().contains("X1"@));
        assert(columns_ready(ds.names()) ==> (ds.names().contains("X1"@)));
    }
    h1(ds, reg, "X1", 0, "X1", FP_BINS, FP_LOW, FP_HIGH)?;
    proof {
        assert(!reg.names().contains("X2"@));
        assert(columns_ready(ds.names()) ==> (ds.names().contains("X2"@)));
    }
    h1(ds, reg, "X2", 0, "X2", FP_BINS, FP_LOW, FP_HIGH)?;
    proof {
        assert(!reg.names().contains("X2 v X1"@));
        assert(columns_ready(ds.names()) ==> (ds.names().contains("X1"@) && ds.names().contains("X2"@)));
    }
    h2(ds, reg, "X2 v X1", 0, "X1", "X2", (FP_BINS, FP_LOW, FP_HIGH), (FP_BINS, FP_LOW, FP_HIGH))?;
    proof {
        assert(!reg.names().contains("DelayBackRight v X1"@));
        assert(columns_ready(ds.names()) ==> (ds.names().contains("X1"@) && ds.names().contains("DelayBackRightEnergy"@)));
    }
    h2(ds, reg, "DelayBackRight v X1", 0, "X1", "DelayBackRightEnergy", (FP_BINS, FP_LOW, FP_HIGH), (CAEN_BINS, CAEN_LOW, CAEN_HIGH))?;
    proof {
        assert(!reg.names().contains("DelayBackLeft v X1"@));
        assert(columns_ready(ds.names()) ==> (ds.names().contains("X1"@) && ds.names().contains("DelayBackLeftEnergy"@)));
    }
    h2(ds, reg, "DelayBackLeft v X1", 0, "X1", "DelayBackLeftEnergy", (FP_BINS, FP_LOW, FP_HIGH), (CAEN_BINS, CAEN_LOW, CAEN_HIGH))?;
    proof {
        assert(!reg.names().contains("DelayFrontRight v X1"@));
        assert(columns_ready(ds.names()) ==> (ds.names().contains("X1"@) && ds.names().contains("DelayFrontRightEnergy"@)));
    }
    h2(ds, reg, "DelayFrontRight v X1", 0, "X1", "DelayFrontRightEnergy", (FP_BINS, FP_LOW, FP_HIGH), (CAEN_BINS, CAEN_LOW, CAEN_HIGH))?;
    proof {
        assert(!reg.names().contains("DelayFrontLeft v X1"@));
        assert(columns_ready(ds.names()) ==> (ds.names().contains("X1"@) && ds.names().contains("DelayFrontLeftEnergy"@)));
    }
    h2(ds, reg, "DelayFrontLeft v X1", 0, "X1", "DelayFrontLeftEnergy", (FP_BINS, FP_LOW, FP_HIGH), (CAEN_BINS, CAEN_LOW, CAEN_HIGH))?;
    proof {
        assert(!reg.names().contains("DelayBackRight v X2"@));
        assert(columns_ready(ds.names()) ==> (ds.names().contains("X2"@) && ds.names().contains("DelayBackRightEnergy"@)));
    }
    h2(ds, reg, "DelayBackRight v X2", 0, "X2", "DelayBackRightEnergy", (FP_BINS, FP_LOW, FP_HIGH), (CAEN_BINS, CAEN_LOW, CAEN_HIGH))?;
    proof {
        assert(!reg.names().contains("DelayBackLeft v X2"@));
        assert(columns_ready(ds.names()) ==> (ds.names().contains("X2"@) && ds.names().contains("DelayBackLeftEnergy"@)));
    }
    h2(ds, reg, "DelayBackLeft v X2", 0, "X2", "DelayBackLeftEnergy", (FP_BINS, FP_LOW, FP_HIGH), (CAEN_BINS, CAEN_LOW, CAEN_HIGH))?;
    proof {
        assert(!reg.names().contains("DelayFrontRight v X2"@));
        assert(columns_ready(ds.names()) ==> (ds.names().contains("X2"@) && ds.names().contains("DelayFrontRightEnergy"@)));
    }
    h2(ds, reg, "DelayFrontRight v X2", 0, "X2", "DelayFrontRightEnergy", (FP_BINS, FP_LOW, FP_HIGH), (CAEN_BINS, CAEN_LOW, CAEN_HIGH))?;
    proof {
        assert(!reg.names().contains("DelayFrontLeft v X2"@));
        assert(columns_ready(ds.names()) ==> (ds.names().contains("X2"@) && ds.names().contains("DelayFrontLeftEnergy"@)));
    }
    h2(ds, reg, "DelayFrontLeft v X2", 0, "X2", "DelayFrontLeftEnergy", (FP_BINS, FP_LOW, FP_HIGH), (CAEN_BINS, CAEN_LOW, CAEN_HIGH))?;
    proof {
        assert(!reg.names().contains("DelayBackRight v Xavg"@));
        assert(columns_ready(ds.names()) ==> (ds.names().contains("Xavg"@) && ds.names().contains("DelayBackRightEnergy"@)));
    }
    h2(ds, reg, "DelayBackRight v Xavg", 0, "Xavg", "DelayBackRightEnergy", (FP_BINS, FP_LOW, FP_HIGH), (CAEN_BINS, CAEN_LOW, CAEN_HIGH))?;
    proof {
        assert(!reg.names().contains("DelayBackLeft v Xavg"@));
        assert(columns_ready(ds.names()) ==> (ds.names().contains("Xavg"@) && ds.names().contains("DelayBackLeftEnergy"@)));
    }
    h2(ds, reg, "DelayBackLeft v Xavg", 0, "Xavg", "DelayBackLeftEnergy", (FP_BINS, FP_LOW, FP_HIGH), (CAEN_BINS, CAEN_LOW, CAEN_HIGH))?;
    proof {
        assert(!reg.names().contains("DelayFrontRight v Xavg"@));
        assert(columns_ready(ds.names()) ==> (ds.names().contains("Xavg"@) && ds.names().contains("DelayFrontRightEnergy"@)));
    }
    h2(ds, reg, "DelayFrontRight v Xavg", 0, "Xavg", "DelayFrontRightEnergy", (FP_BINS, FP_LOW, FP_HIGH), (CAEN_BINS, CAEN_LOW, CAEN_HIGH))?;
    proof {
        assert(!reg.names().contains("DelayFrontLeft v Xavg"@));
        assert(columns_ready(ds.names()) ==> (ds.names().contains("Xavg"@) && ds.names().contains("DelayFrontLeftEnergy"@)));
    }
    h2(ds, reg, "DelayFrontLeft v Xavg", 0, "Xavg", "DelayFrontLeftEnergy", (FP_BINS, FP_LOW, FP_HIGH), (CAEN_BINS, CAEN_LOW, CAEN_HIGH))?;
    proof {
        assert(!reg.names().contains("DelayFrontAverage v X1"@));
        assert(columns_ready(ds.names()) ==> (ds.names().contains("X1"@) && ds.names().contains("DelayFrontAverageEnergy"@)));
    }
    h2(ds, reg, "DelayFrontAverage v X1", 0, "X1", "DelayFrontAverageEnergy", (FP_BINS, FP_LOW, FP_HIGH), (CAEN_BINS, CAEN_LOW, CAEN_HIGH))?;
    proof {
        assert(!reg.names().contains("DelayBackAverage v X1"@));
        assert(columns_ready(ds.names()) ==> (ds.names().contains("X1"@) && ds.names().contains("DelayBackAverageEnergy"@)));
    }
    h2(ds, reg, "DelayBackAverage v X1", 0, "X1", "DelayBackAverageEnergy", (FP_BINS, FP_LOW, FP_HIGH), (CAEN_BINS, CAEN_LOW, CAEN_HIGH))?;
    proof {
        assert(!reg.names().contains("DelayFrontAverage v X2"@));
        assert(columns_ready(ds.names()) ==> (ds.names().contains("X2"@) && ds.names().contains("DelayFrontAverageEnergy"@)));
    }
    h2(ds, reg, "DelayFrontAverage v X2", 0, "X2", "DelayFrontAverageEnergy", (FP_BINS, FP_LOW, FP_HIGH), (CAEN_BINS, CAEN_LOW, CAEN_HIGH))?;
    proof {
        assert(!reg.names().contains("DelayBackAverage v X2"@));
        assert(columns_ready(ds.names()) ==> (ds.names().contains("X2"@) && ds.names().contains("DelayBackAverageEnergy"@)));
    }
    h2(ds, reg, "DelayBackAverage v X2", 0, "X2", "DelayBackAverageEnergy", (FP_BINS, FP_LOW, FP_HIGH), (CAEN_BINS, CAEN_LOW, CAEN_HIGH))?;
    proof {
        assert(!reg.names().contains("DelayFrontAverage v Xavg"@));
        assert(columns_ready(ds.names()) ==> (ds.names().contains("Xavg"@) && ds.names().contains("DelayFrontAverageEnergy"@)));
    }
    h2(ds, reg, "DelayFrontAverage v Xavg", 0, "Xavg", "DelayFrontAverageEnergy", (FP_BINS, FP_LOW, FP_HIGH), (CAEN_BINS, CAEN_LOW, CAEN_HIGH))?;
    proof {
        assert(!reg.names().contains("DelayBackAverage v Xavg"@));
        assert(columns_ready(ds.names()) ==> (ds.names().contains("Xavg"@) && ds.names().contains("DelayBackAverageEnergy"@)));
    }
    h2(ds, reg, "DelayBackAverage v Xavg", 0, "Xavg", "DelayBackAverageEnergy", (FP_BINS, FP_LOW, FP_HIGH), (CAEN_BINS, CAEN_LOW, CAEN_HIGH))?;
    proof {
        assert(!reg.names().contains("AnodeBack v ScintLeft"@));
        assert(columns_ready(ds.names()) ==> (ds.names().contains("ScintLeftEnergy"@) && ds.names().contains("AnodeBackEnergy"@)));
    }
    h2(ds, reg, "AnodeBack v ScintLeft", 0, "ScintLeftEnergy", "AnodeBackEnergy", (CAEN_BINS, CAEN_LOW, CAEN_HIGH), (CAEN_BINS, CAEN_LOW, CAEN_HIGH))?;
    proof {
        assert(!reg.names().contains("AnodeFront v ScintLeft"@));
        assert(columns_ready(ds.names()) ==> (ds.names().contains("ScintLeftEnergy"@) && ds.names().contains("AnodeFrontEnergy"@)));
    }
    h2(ds, reg, "AnodeFront v ScintLeft", 0, "ScintLeftEnergy", "AnodeFrontEnergy", (CAEN_BINS, CAEN_LOW, CAEN_HIGH), (CAEN_BINS, CAEN_LOW, CAEN_HIGH))?;
    proof {
        assert(!reg.names().contains("Cathode v ScintLeft"@));
        assert(columns_ready(ds.names()) ==> (ds.names().contains("ScintLeftEnergy"@) && ds.names().contains("CathodeEnergy"@)));
    }
    h2(ds, reg, "Cathode v ScintLeft", 0, "ScintLeftEnergy", "CathodeEnergy", (CAEN_BINS, CAEN_LOW, CAEN_HIGH), (CAEN_BINS, CAEN_LOW, CAEN_HIGH))?;
    proof {
        assert(!reg.names().contains("AnodeBack v ScintRight"@));
        assert(columns_ready(ds.names()) ==> (ds.names().contains("ScintRightEnergy"@) && ds.names().contains("AnodeBackEnergy"@)));
    }
    h2(ds, reg, "AnodeBack v ScintRight", 0, "ScintRightEnergy", "AnodeBackEnergy", (CAEN_BINS, CAEN_LOW, CAEN_HIGH), (CAEN_BINS, CAEN_LOW, CAEN_HIGH))?;
    proof {
        assert(!reg.names().contains("AnodeFront v ScintRight"@));
        assert(columns_ready(ds.names()) ==> (ds.names().contains("ScintRightEnergy"@) && ds.names().contains("AnodeFrontEnergy"@)));
    }
    h2(ds, reg, "AnodeFront v ScintRight", 0, "ScintRightEnergy", "AnodeFrontEnergy", (CAEN_BINS, CAEN_LOW, CAEN_HIGH), (CAEN_BINS, CAEN_LOW, CAEN_HIGH))?;
    proof {
        assert(!reg.names().contains("Cathode v ScintRight"@));
        assert(columns_ready(ds.names()) ==> (ds.names().contains("ScintRightEnergy"@) && ds.names().contains("CathodeEnergy"@)));
    }
    h2(ds, reg, "Cathode v ScintRight", 0, "ScintRightEnergy", "CathodeEnergy", (CAEN_BINS, CAEN_LOW, CAEN_HIGH), (CAEN_BINS, CAEN_LOW, CAEN_HIGH))?;
    proof {
        assert(!reg.names().contains("ScintLeft v X1"@));
        assert(columns_ready(ds.names()) ==> (ds.names().contains("X1"@) && ds.names().contains("ScintLeftEnergy"@)));
    }
    h2(ds, reg, "ScintLeft v X1", 0, "X1", "ScintLeftEnergy", (FP_BINS, FP_LOW, FP_HIGH), (CAEN_BINS, CAEN_LOW, CAEN_HIGH))?;
    proof {
        assert(!reg.names().contains("ScintLeft v X2"@));
        assert(columns_ready(ds.names()) ==> (ds.names().contains("X2"@) && ds.names().contains("ScintLeftEnergy"@)));
    }
    h2(ds, reg, "ScintLeft v X2", 0, "X2", "ScintLeftEnergy", (FP_BINS, FP_LOW, FP_HIGH), (CAEN_BINS, CAEN_LOW, CAEN_HIGH))?;
    proof {
        assert(!reg.names().contains("ScintLeft v Xavg"@));
        assert(columns_ready(ds.names()) ==> (ds.names().contains("Xavg"@) && ds.names().contains("ScintLeftEnergy"@)));
    }
    h2(ds, reg, "ScintLeft v Xavg", 0, "Xavg", "ScintLeftEnergy", (FP_BINS, FP_LOW, FP_HIGH), (CAEN_BINS, CAEN_LOW, CAEN_HIGH))?;
    proof {
        assert(!reg.names().contains("ScintRight v X1"@));
        assert(columns_ready(ds.names()) ==> (ds.names().contains("X1"@) && ds.names().contains("ScintRightEnergy"@)));
    }
    h2(ds, reg, "ScintRight v X1", 0, "X1", "ScintRightEnergy", (FP_BINS, FP_LOW, FP_HIGH), (CAEN_BINS, CAEN_LOW, CAEN_HIGH))?;
    proof {
        assert(!reg.names().contains("ScintRight v X2"@));
        assert(columns_ready(ds.names()) ==> (ds.names().contains("X2"@) && ds.names().contains("ScintRightEnergy"@)));
    }
    h2(ds, reg, "ScintRight v X2", 0, "X2", "ScintRightEnergy", (FP_BINS, FP_LOW, FP_HIGH), (CAEN_BINS, CAEN_LOW, CAEN_HIGH))?;
    proof {
        assert(!reg.names().contains("ScintRight v Xavg"@));
        assert(columns_ready(ds.names()) ==> (ds.names().contains("Xavg"@) && ds.names().contains("ScintRightEnergy"@)));
    }
    h2(ds, reg, "ScintRight v Xavg", 0, "Xavg", "ScintRightEnergy", (FP_BINS, FP_LOW, FP_HIGH), (CAEN_BINS, CAEN_LOW, CAEN_HIGH))?;
    proof {
        assert(!reg.names().contains("AnodeBack v X1"@));
        assert(columns_ready(ds.names()) ==> (ds.names().contains("X1"@) && ds.names().contains("AnodeBackEnergy"@)));
    }
    h2(ds, reg, "AnodeBack v X1", 0, "X1", "AnodeBackEnergy", (FP_BINS, FP_LOW, FP_HIGH), (CAEN_BINS, CAEN_LOW, CAEN_HIGH))?;
    proof {
        assert(!reg.names().contains("AnodeBack v X2"@));
        assert(columns_ready(ds.names()) ==> (ds.names().contains("X2"@) && ds.names().contains("AnodeBackEnergy"@)));
    }
    h2(ds, reg, "AnodeBack v X2", 0, "X2", "AnodeBackEnergy", (FP_BINS, FP_LOW, FP_HIGH), (CAEN_BINS, CAEN_LOW, CAEN_HIGH))?;
    proof {
        assert(!reg.names().contains("AnodeBack v Xavg"@));
        assert(columns_ready(ds.names()) ==> (ds.names().contains("Xavg"@) && ds.names().contains("AnodeBackEnergy"@)));
    }
    h2(ds, reg, "AnodeBack v Xavg", 0, "Xavg", "AnodeBackEnergy", (FP_BINS, FP_LOW, FP_HIGH), (CAEN_BINS, CAEN_LOW, CAEN_HIGH))?;
    proof {
        assert(!reg.names().contains("AnodeFront v X1"@));
        assert(columns_ready(ds.names()) ==> (ds.names().contains("X1"@) && ds.names().contains("AnodeFrontEnergy"@)));
    }
    h2(ds, reg, "AnodeFront v X1", 0, "X1", "AnodeFrontEnergy", (FP_BINS, FP_LOW, FP_HIGH), (CAEN_BINS, CAEN_LOW, CAEN_HIGH))?;
    proof {
        assert(!reg.names().contains("AnodeFront v X2"@));
        assert(columns_ready(ds.names()) ==> (ds.names().contains("X2"@) && ds.names().contains("AnodeFrontEnergy"@)));
    }
    h2(ds, reg, "AnodeFront v X2", 0, "X2", "AnodeFrontEnergy", (FP_BINS, FP_LOW, FP_HIGH), (CAEN_BINS, CAEN_LOW, CAEN_HIGH))?;
    proof {
        assert(!reg.names().contains("AnodeFront v Xavg"@));
        assert(columns_ready(ds.names()) ==> (ds.names().contains("Xavg"@) && ds.names().contains("AnodeFrontEnergy"@)));
    }
    h2(ds, reg, "AnodeFront v Xavg", 0, "Xavg", "AnodeFrontEnergy", (FP_BINS, FP_LOW, FP_HIGH), (CAEN_BINS, CAEN_LOW, CAEN_HIGH))?;
    proof {
        assert(!reg.names().contains("Cathode v X1"@));
        assert(columns_ready(ds.names()) ==> (ds.names().contains("X1"@) && ds.names().contains("CathodeEnergy"@)));
    }
    h2(ds, reg, "Cathode v X1", 0, "X1", "CathodeEnergy", (FP_BINS, FP_LOW, FP_HIGH), (CAEN_BINS, CAEN_LOW, CAEN_HIGH))?;
    proof {
        assert(!reg.names().contains("Cathode v X2"@));
        assert(columns_ready(ds.names()) ==> (ds.names().contains("X2"@) && ds.names().contains("CathodeEnergy"@)));
    }
    h2(ds, reg, "Cathode v X2", 0, "X2", "CathodeEnergy", (FP_BINS, FP_LOW, FP_HIGH), (CAEN_BINS, CAEN_LOW, CAEN_HIGH))?;
    proof {
        assert(!reg.names().contains("Cathode v Xavg"@));
        assert(columns_ready(ds.names()) ==> (ds.names().contains("Xavg"@) && ds.names().contains("CathodeEnergy"@)));
    }
    h2(ds, reg, "Cathode v Xavg", 0, "Xavg", "CathodeEnergy", (FP_BINS, FP_LOW, FP_HIGH), (CAEN_BINS, CAEN_LOW, CAEN_HIGH))?;
    Ok(())
}

/// Registers the histograms on the view where both wire planes fired.
#[verifier::rlimit(100)]
fn register_both_planes(ds: &Dataset, reg: &mut Registry) -> (r: Result<(), HistError>)
    requires
        ds.wf(),
        old(reg).valid_for(ds),
        ds.views@.len() >= 5,
        !old(reg).names().contains("X1: bothplanes"@),
        !old(reg).names().contains("X2: bothplanes"@),
        !old(reg).names().contains("Xavg: bothplanes"@),
        !old(reg).names().contains("Theta v Xavg: bothplanes"@),
        !old(reg).names().contains("DelayFrontLeftTime_relTo_AnodeFrontTime_bothplanes"@),
        !old(reg).names().contains("DelayFrontRightTime_relTo_AnodeFrontTime_bothplanes"@),
        !old(reg).names().contains("DelayBackLeftTime_relTo_AnodeBackTime_bothplanes"@),
        !old(reg).names().contains("DelayBackRightTime_relTo_AnodeBackTime_bothplanes"@),
    ensures
        final(reg).valid_for(ds),
        r is Ok ==> final(reg).hists@.len() == old(reg).hists@.len() + 8,
        r is Ok ==> final(reg).names() == old(reg).names().push("X1: bothplanes"@).push("X2: bothplanes"@).push("Xavg: bothplanes"@).push("Theta v Xavg: bothplanes"@).push("DelayFrontLeftTime_relTo_AnodeFrontTime_bothplanes"@).push("DelayFrontRightTime_relTo_AnodeFrontTime_bothplanes"@).push("DelayBackLeftTime_relTo_AnodeBackTime_bothplanes"@).push("DelayBackRightTime_relTo_AnodeBackTime_bothplanes"@),
        r is Ok ==> final(reg).defs() == old(reg).defs().push(def1(ds.names(), "X1: bothplanes"@, 1, "X1"@, FP_BINS, FP_LOW, FP_HIGH)).push(def1(ds.names(), "X2: bothplanes"@, 1, "X2"@, FP_BINS, FP_LOW, FP_HIGH)).push(def1(ds.names(), "Xavg: bothplanes"@, 1, "Xavg"@, FP_BINS, FP_LOW, FP_HIGH)).push(def2(ds.names(), "Theta v Xavg: bothplanes"@, 1, "Xavg"@, "Theta"@, (FP_BINS, FP_LOW, FP_HIGH), (300, 0, 1_571))).push(def1(ds.names(), "DelayFrontLeftTime_relTo_AnodeFrontTime_bothplanes"@, 1, "DelayFrontLeftTime_AnodeFrontTime"@, 8000, -4_000_000i64, 4_000_000)).push(def1(ds.names(), "DelayFrontRightTime_relTo_AnodeFrontTime_bothplanes"@, 1, "DelayFrontRightTime_AnodeFrontTime"@, 8000, -4_000_000i64, 4_000_000)).push(def1(ds.names(), "DelayBackLeftTime_relTo_AnodeBackTime_bothplanes"@, 1, "DelayBackLeftTime_AnodeBackTime"@, 8000, -4_000_000i64, 4_000_000)).push(def1(ds.names(), "DelayBackRightTime_relTo_AnodeBackTime_bothplanes"@, 1, "DelayBackRightTime_AnodeBackTime"@, 8000, -4_000_000i64, 4_000_000)),
        columns_ready(ds.names()) ==> r is Ok,
        r matches Err(x) ==> x is DuplicateName || x is UnknownColumn,
{
    proof {
        reveal_strlit("DelayBackLeftTime_relTo_AnodeBackTime_bothplanes");
        reveal_strlit("DelayBackRightTime_relTo_AnodeBackTime_bothplanes");
        reveal_strlit("DelayFrontLeftTime_relTo_AnodeFrontTime_bothplanes");
        reveal_strlit("DelayFrontRightTime_relTo_AnodeFrontTime_bothplanes");
        reveal_strlit("Theta v Xavg: bothplanes");
        reveal_strlit("X1: bothplanes");
        reveal_strlit("X2: bothplanes");
        reveal_strlit("Xavg: bothplanes");
        assert("DelayBackLeftTime_relTo_AnodeBackTime_bothplanes"@.len() == 48);
        assert("DelayBackRightTime_relTo_AnodeBackTime_bothplanes"@.len() == 49);
        assert("DelayFrontLeftTime_relTo_AnodeFrontTime_bothplanes"@.len() == 50);
        assert("DelayFrontRightTime_relTo_AnodeFrontTime_bothplanes"@.len() == 51);
        assert("Theta v Xavg: bothplanes"@.len() == 24);
        assert("X1: bothplanes"@.len() == 14);
        assert("X2: bothplanes"@.len() == 14);
        assert("Xavg: bothplanes"@.len() == 16);
        assert("X1: bothplanes"@[1] != "X2: bothplanes"@[1]);
    }
    proof {
        assert(!reg.names().contains("X1: bothplanes"@));
        assert(columns_ready(ds.names()) ==> (ds.names().contains("X1"@)));
    }
    h1(ds, reg, "X1: bothplanes", 1, "X1", FP_BINS, FP_LOW, FP_HIGH)?;
    proof {
        assert(!reg.names().contains("X2: bothplanes"@));
        assert(columns_ready(ds.names()) ==> (ds.names().contains("X2"@)));
    }
    h1(ds, reg, "X2: bothplanes", 1, "X2", FP_BINS, FP_LOW, FP_HIGH)?;
    proof {
        assert(!reg.names().contains("Xavg: bothplanes"@));
        assert(columns_ready(ds.names()) ==> (ds.names().contains("Xavg"@)));
    }
    h1(ds, reg, "Xavg: bothplanes", 1, "Xavg", FP_BINS, FP_LOW, FP_HIGH)?;
    proof {
        assert(!reg.names().contains("Theta v Xavg: bothplanes"@));
        assert(columns_ready(ds.names()) ==> (ds.names().contains("Xavg"@) && ds.names().contains("Theta"@)));
    }
    h2(ds, reg, "Theta v Xavg: bothplanes", 1, "Xavg", "Theta", (FP_BINS, FP_LOW, FP_HIGH), (300, 0, 1_571))?;
    proof {
        assert(!reg.names().contains("DelayFrontLeftTime_relTo_AnodeFrontTime_bothplanes"@));
        assert(columns_ready(ds.names()) ==> (ds.names().contains("DelayFrontLeftTime_AnodeFrontTime"@)));
    }
    h1(ds, reg, "DelayFrontLeftTime_relTo_AnodeFrontTime_bothplanes", 1, "DelayFrontLeftTime_AnodeFrontTime", 8000, -4_000_000, 4_000_000)?;
    proof {
        assert(!reg.names().contains("DelayFrontRightTime_relTo_AnodeFrontTime_bothplanes"@));
        assert(columns_ready(ds.names()) ==> (ds.names().contains("DelayFrontRightTime_AnodeFrontTime"@)));
    }
    h1(ds, reg, "DelayFrontRightTime_relTo_AnodeFrontTime_bothplanes", 1, "DelayFrontRightTime_AnodeFrontTime", 8000, -4_000_000, 4_000_000)?;
    proof {
        assert(!reg.names().contains("DelayBackLeftTime_relTo_AnodeBackTime_bothplanes"@));
        assert(columns_ready(ds.names()) ==> (ds.names().contains("DelayBackLeftTime_AnodeBackTime"@)));
    }
    h1(ds, reg, "DelayBackLeftTime_relTo_AnodeBackTime_bothplanes", 1, "DelayBackLeftTime_AnodeBackTime", 8000, -4_000_000, 4_000_000)?;
    proof {
        assert(!reg.names().contains("DelayBackRightTime_relTo_AnodeBackTime_bothplanes"@));
        assert(columns_ready(ds.names()) ==> (ds.names().contains("DelayBackRightTime_AnodeBackTime"@)));
    }
    h1(ds, reg, "DelayBackRightTime_relTo_AnodeBackTime_bothplanes", 1, "DelayBackRightTime_AnodeBackTime", 8000, -4_000_000, 4_000_000)?;
    Ok(())
}

/// Registers the histograms on the view where only the first wire plane fired.
#[verifier::rlimit(100)]
fn register_only_x1_plane(ds: &Dataset, reg: &mut Registry) -> (r: Result<(), HistError>)
    requires
        ds.wf(),
        old(reg).valid_for(ds),
        ds.views@.len() >= 5,
        !old(reg).names().contains("X1: only1plane"@),
        !old(reg).names().contains("DelayFrontLeftTime_relTo_AnodeFrontTime_noX2"@),
        !old(reg).names().contains("DelayFrontRightTime_relTo_AnodeFrontTime_noX2"@),
        !old(reg).names().contains("DelayBackLeftTime_relTo_AnodeFrontTime_noX2"@),
        !old(reg).names().contains("DelayBackRightTime_relTo_AnodeFrontTime_noX2"@),
        !old(reg).names().contains("DelayFrontLeftTime_relTo_AnodeBackTime_noX2"@),
        !old(reg).names().contains("DelayFrontRightTime_relTo_AnodeBackTime_noX2"@),
        !old(reg).names().contains("DelayBackLeftTime_relTo_AnodeBackTime_noX2"@),
        !old(reg).names().contains("DelayBackRightTime_relTo_AnodeBackTime_noX2"@),
    ensures
        final(reg).valid_for(ds),
        r is Ok ==> final(reg).hists@.len() == old(reg).hists@.len() + 9,
        r is Ok ==> final(reg).names() == old(reg).names().push("X1: only1plane"@).push("DelayFrontLeftTime_relTo_AnodeFrontTime_noX2"@).push("DelayFrontRightTime_relTo_AnodeFrontTime_noX2"@).push("DelayBackLeftTime_relTo_AnodeFrontTime_noX2"@).push("DelayBackRightTime_relTo_AnodeFrontTime_noX2"@).push("DelayFrontLeftTime_relTo_AnodeBackTime_noX2"@).push("DelayFrontRightTime_relTo_AnodeBackTime_noX2"@).push("DelayBackLeftTime_relTo_AnodeBackTime_noX2"@).push("DelayBackRightTime_relTo_AnodeBackTime_noX2"@),
        r is Ok ==> final(reg).defs() == old(reg).defs().push(def1(ds.names(), "X1: only1plane"@, 2, "X1"@, FP_BINS, FP_LOW, FP_HIGH)).push(def1(ds.names(), "DelayFrontLeftTime_relTo_AnodeFrontTime_noX2"@, 2, "DelayFrontLeftTime_AnodeFrontTime"@, 8000, -4_000_000i64, 4_000_000)).push(def1(ds.names(), "DelayFrontRightTime_relTo_AnodeFrontTime_noX2"@, 2, "DelayFrontRightTime_AnodeFrontTime"@, 8000, -4_000_000i64, 4_000_000)).push(def1(ds.names(), "DelayBackLeftTime_relTo_AnodeFrontTime_noX2"@, 2, "DelayBackLeftTime_AnodeFrontTime"@, 8000, -4_000_000i64, 4_000_000)).push(def1(ds.names(), "DelayBackRightTime_relTo_AnodeFrontTime_noX2"@, 2, "DelayBackRightTime_AnodeFrontTime"@, 8000, -4_000_000i64, 4_000_000)).push(def1(ds.names(), "DelayFrontLeftTime_relTo_AnodeBackTime_noX2"@, 2, "DelayFrontLeftTime_AnodeBackTime"@, 8000, -4_000_000i64, 4_000_000)).push(def1(ds.names(), "DelayFrontRightTime_relTo_AnodeBackTime_noX2"@, 2, "DelayFrontRightTime_AnodeBackTime"@, 8000, -4_000_000i64, 4_000_000)).push(def1(ds.names(), "DelayBackLeftTime_relTo_AnodeBackTime_noX2"@, 2, "DelayBackLeftTime_AnodeBackTime"@, 8000, -4_000_000i64, 4_000_000)).push(def1(ds.names(), "DelayBackRightTime_relTo_AnodeBackTime_noX2"@, 2, "DelayBackRightTime_AnodeBackTime"@, 8000, -4_000_000i64, 4_000_000)),
        columns_ready(ds.names()) ==> r is Ok,
        r matches Err(x) ==> x is DuplicateName || x is UnknownColumn,
{
    proof {
        reveal_strlit("DelayBackLeftTime_relTo_AnodeBackTime_noX2");
        reveal_strlit("DelayBackLeftTime_relTo_AnodeFrontTime_noX2");
        reveal_strlit("DelayBackRightTime_relTo_AnodeBackTime_noX2");
        reveal_strlit("DelayBackRightTime_relTo_AnodeFrontTime_noX2");
        reveal_strlit("DelayFrontLeftTime_relTo_AnodeBackTime_noX2");
        reveal_strlit("DelayFrontLeftTime_relTo_AnodeFrontTime_noX2");
        reveal_strlit("DelayFrontRightTime_relTo_AnodeBackTime_noX2");
        reveal_strlit("DelayFrontRightTime_relTo_AnodeFrontTime_noX2");
        reveal_strlit("X1: only1plane");
        assert("DelayBackLeftTime_relTo_AnodeBackTime_noX2"@.len() == 42);
        assert("DelayBackLeftTime_relTo_AnodeFrontTime_noX2"@.len() == 43);
        assert("DelayBackRightTime_relTo_AnodeBackTime_noX2"@.len() == 43);
        assert("DelayBackRightTime_relTo_AnodeFrontTime_noX2"@.len() == 44);
        assert("DelayFrontLeftTime_relTo_AnodeBackTime_noX2"@.len() == 43);
        assert("DelayFrontLeftTime_relTo_AnodeFrontTime_noX2"@.len() == 44);
        assert("DelayFrontRightTime_relTo_AnodeBackTime_noX2"@.len() == 44);
        assert("DelayFrontRightTime_relTo_AnodeFrontTime_noX2"@.len() == 45);
        assert("X1: only1plane"@.len() == 14);
        assert("DelayFrontLeftTime_relTo_AnodeFrontTime_noX2"@[5] != "DelayBackRightTime_relTo_AnodeFrontTime_noX2"@[5]);
        assert("DelayBackLeftTime_relTo_AnodeFrontTime_noX2"@[5] != "DelayFrontLeftTime_relTo_AnodeBackTime_noX2"@[5]);
        assert("DelayFrontLeftTime_relTo_AnodeFrontTime_noX2"@[10] != "DelayFrontRightTime_relTo_AnodeBackTime_noX2"@[10]);
        assert("DelayBackRightTime_relTo_AnodeFrontTime_noX2"@[5] != "DelayFrontRightTime_relTo_AnodeBackTime_noX2"@[5]);
        assert("DelayBackLeftTime_relTo_AnodeFrontTime_noX2"@[9] != "DelayBackRightTime_relTo_AnodeBackTime_noX2"@[9]);
        assert("DelayFrontLeftTime_relTo_AnodeBackTime_noX2"@[5] != "DelayBackRightTime_relTo_AnodeBackTime_noX2"@[5]);
    }
    proof {
        assert(!reg.names().contains("X1: only1plane"@));
        assert(columns_ready(ds.names()) ==> (ds.names().contains("X1"@)));
    }
    h1(ds, reg, "X1: only1plane", 2, "X1", FP_BINS, FP_LOW, FP_HIGH)?;
    proof {
        assert(!reg.names().contains("DelayFrontLeftTime_relTo_AnodeFrontTime_noX2"@));
        assert(columns_ready(ds.names()) ==> (ds.names().contains("DelayFrontLeftTime_AnodeFrontTime"@)));
    }
    h1(ds, reg, "DelayFrontLeftTime_relTo_AnodeFrontTime_noX2", 2, "DelayFrontLeftTime_AnodeFrontTime", 8000, -4_000_000, 4_000_000)?;
    proof {
        assert(!reg.names().contains("DelayFrontRightTime_relTo_AnodeFrontTime_noX2"@));
        assert(columns_ready(ds.names()) ==> (ds.names().contains("DelayFrontRightTime_AnodeFrontTime"@)));
    }
    h1(ds, reg, "DelayFrontRightTime_relTo_AnodeFrontTime_noX2", 2, "DelayFrontRightTime_AnodeFrontTime", 8000, -4_000_000, 4_000_000)?;
    proof {
        assert(!reg.names().contains("DelayBackLeftTime_relTo_AnodeFrontTime_noX2"@));
        assert(columns_ready(ds.names()) ==> (ds.names().contains("DelayBackLeftTime_AnodeFrontTime"@)));
    }
    h1(ds, reg, "DelayBackLeftTime_relTo_AnodeFrontTime_noX2", 2, "DelayBackLeftTime_AnodeFrontTime", 8000, -4_000_000, 4_000_000)?;
    proof {
        assert(!reg.names().contains("DelayBackRightTime_relTo_AnodeFrontTime_noX2"@));
        assert(columns_ready(ds.names()) ==> (ds.names().contains("DelayBackRightTime_AnodeFrontTime"@)));
    }
    h1(ds, reg, "DelayBackRightTime_relTo_AnodeFrontTime_noX2", 2, "DelayBackRightTime_AnodeFrontTime", 8000, -4_000_000, 4_000_000)?;
    proof {
        assert(!reg.names().contains("DelayFrontLeftTime_relTo_AnodeBackTime_noX2"@));
        assert(columns_ready(ds.names()) ==> (ds.names().contains("DelayFrontLeftTime_AnodeBackTime"@)));
    }
    h1(ds, reg, "DelayFrontLeftTime_relTo_AnodeBackTime_noX2", 2, "DelayFrontLeftTime_AnodeBackTime", 8000, -4_000_000, 4_000_000)?;
    proof {
        assert(!reg.names().contains("DelayFrontRightTime_relTo_AnodeBackTime_noX2"@));
        assert(columns_ready(ds.names()) ==> (ds.names().contains("DelayFrontRightTime_AnodeBackTime"@)));
    }
    h1(ds, reg, "DelayFrontRightTime_relTo_AnodeBackTime_noX2", 2, "DelayFrontRightTime_AnodeBackTime", 8000, -4_000_000, 4_000_000)?;
    proof {
        assert(!reg.names().contains("DelayBackLeftTime_relTo_AnodeBackTime_noX2"@));
        assert(columns_ready(ds.names()) ==> (ds.names().contains("DelayBackLeftTime_AnodeBackTime"@)));
    }
    h1(ds, reg, "DelayBackLeftTime_relTo_AnodeBackTime_noX2", 2, "DelayBackLeftTime_AnodeBackTime", 8000, -4_000_000, 4_000_000)?;
    proof {
        assert(!reg.names().contains("DelayBackRightTime_relTo_AnodeBackTime_noX2"@));
        assert(columns_ready(ds.names()) ==> (ds.names().contains("DelayBackRightTime_AnodeBackTime"@)));
    }
    h1(ds, reg, "DelayBackRightTime_relTo_AnodeBackTime_noX2", 2, "DelayBackRightTime_AnodeBackTime", 8000, -4_000_000, 4_000_000)?;
    Ok(())
}

/// Registers the histograms on the view where only the second wire plane fired.
#[verifier::rlimit(100)]
fn register_only_x2_plane(ds: &Dataset, reg: &mut Registry) -> (r: Result<(), HistError>)
    requires
        ds.wf(),
        old(reg).valid_for(ds),
        ds.views@.len() >= 5,
        !old(reg).names().contains("X2: only1plane"@),
        !old(reg).names().contains("DelayFrontLeftTime_relTo_AnodeFrontTime_noX1"@),
        !old(reg).names().contains("DelayFrontRightTime_relTo_AnodeFrontTime_noX1"@),
        !old(reg).names().contains("DelayBackLeftTime_relTo_AnodeFrontTime_noX1"@),
        !old(reg).names().contains("DelayBackRightTime_relTo_AnodeFrontTime_noX1"@),
        !old(reg).names().contains("DelayFrontLeftTime_relTo_AnodeBackTime_noX1"@),
        !old(reg).names().contains("DelayFrontRightTime_relTo_AnodeBackTime_noX1"@),
        !old(reg).names().contains("DelayBackLeftTime_relTo_AnodeBackTime_noX1"@),
        !old(reg).names().contains("DelayBackRightTime_relTo_AnodeBackTime_noX1"@),
    ensures
        final(reg).valid_for(ds),
        r is Ok ==> final(reg).hists@.len() == old(reg).hists@.len() + 9,
        r is Ok ==> final(reg).names() == old(reg).names().push("X2: only1plane"@).push("DelayFrontLeftTime_relTo_AnodeFrontTime_noX1"@).push("DelayFrontRightTime_relTo_AnodeFrontTime_noX1"@).push("DelayBackLeftTime_relTo_AnodeFrontTime_noX1"@).push("DelayBackRightTime_relTo_AnodeFrontTime_noX1"@).push("DelayFrontLeftTime_relTo_AnodeBackTime_noX1"@).push("DelayFrontRightTime_relTo_AnodeBackTime_noX1"@).push("DelayBackLeftTime_relTo_AnodeBackTime_noX1"@).push("DelayBackRightTime_relTo_AnodeBackTime_noX1"@),
        r is Ok ==> final(reg).defs() == old(reg).defs().push(def1(ds.names(), "X2: only1plane"@, 3, "X2"@, FP_BINS, FP_LOW, FP_HIGH)).push(def1(ds.names(), "DelayFrontLeftTime_relTo_AnodeFrontTime_noX1"@, 3, "DelayFrontLeftTime_AnodeFrontTime"@, 8000, -4_000_000i64, 4_000_000)).push(def1(ds.names(), "DelayFrontRightTime_relTo_AnodeFrontTime_noX1"@, 3, "DelayFrontRightTime_AnodeFrontTime"@, 8000, -4_000_000i64, 4_000_000)).push(def1(ds.names(), "DelayBackLeftTime_relTo_AnodeFrontTime_noX1"@, 3, "DelayBackLeftTime_AnodeFrontTime"@, 8000, -4_000_000i64, 4_000_000)).push(def1(ds.names(), "DelayBackRightTime_relTo_AnodeFrontTime_noX1"@, 3, "DelayBackRightTime_AnodeFrontTime"@, 8000, -4_000_000i64, 4_000_000)).push(def1(ds.names(), "DelayFrontLeftTime_relTo_AnodeBackTime_noX1"@, 3, "DelayFrontLeftTime_AnodeBackTime"@, 8000, -4_000_000i64, 4_000_000)).push(def1(ds.names(), "DelayFrontRightTime_relTo_AnodeBackTime_noX1"@, 3, "DelayFrontRightTime_AnodeBackTime"@, 8000, -4_000_000i64, 4_000_000)).push(def1(ds.names(), "DelayBackLeftTime_relTo_AnodeBackTime_noX1"@, 3, "DelayBackLeftTime_AnodeBackTime"@, 8000, -4_000_000i64, 4_000_000)).push(def1(ds.names(), "DelayBackRightTime_relTo_AnodeBackTime_noX1"@, 3, "DelayBackRightTime_AnodeBackTime"@, 8000, -4_000_000i64, 4_000_000)),
        columns_ready(ds.names()) ==> r is Ok,
        r matches Err(x) ==> x is DuplicateName || x is UnknownColumn,
{
    proof {
        reveal_strlit("DelayBackLeftTime_relTo_AnodeBackTime_noX1");
        reveal_strlit("DelayBackLeftTime_relTo_AnodeFrontTime_noX1");
        reveal_strlit("DelayBackRightTime_relTo_AnodeBackTime_noX1");
        reveal_strlit("DelayBackRightTime_relTo_AnodeFrontTime_noX1");
        reveal_strlit("DelayFrontLeftTime_relTo_AnodeBackTime_noX1");
        reveal_strlit("DelayFrontLeftTime_relTo_AnodeFrontTime_noX1");
        reveal_strlit("DelayFrontRightTime_relTo_AnodeBackTime_noX1");
        reveal_strlit("DelayFrontRightTime_relTo_AnodeFrontTime_noX1");
        reveal_strlit("X2: only1plane");
        assert("DelayBackLeftTime_relTo_AnodeBackTime_noX1"@.len() == 42);
        assert("DelayBackLeftTime_relTo_AnodeFrontTime_noX1"@.len() == 43);
        assert("DelayBackRightTime_relTo_AnodeBackTime_noX1"@.len() == 43);
        assert("DelayBackRightTime_relTo_AnodeFrontTime_noX1"@.len() == 44);
        assert("DelayFrontLeftTime_relTo_AnodeBackTime_noX1"@.len() == 43);
        assert("DelayFrontLeftTime_relTo_AnodeFrontTime_noX1"@.len() == 44);
        assert("DelayFrontRightTime_relTo_AnodeBackTime_noX1"@.len() == 44);
        assert("DelayFrontRightTime_relTo_AnodeFrontTime_noX1"@.len() == 45);
        assert("X2: only1plane"@.len() == 14);
        assert("DelayFrontLeftTime_relTo_AnodeFrontTime_noX1"@[5] != "DelayBackRightTime_relTo_AnodeFrontTime_noX1"@[5]);
        assert("DelayBackLeftTime_relTo_AnodeFrontTime_noX1"@[5] != "DelayFrontLeftTime_relTo_AnodeBackTime_noX1"@[5]);
        assert("DelayFrontLeftTime_relTo_AnodeFrontTime_noX1"@[10] != "DelayFrontRightTime_relTo_AnodeBackTime_noX1"@[10]);
        assert("DelayBackRightTime_relTo_AnodeFrontTime_noX1"@[5] != "DelayFrontRightTime_relTo_AnodeBackTime_noX1"@[5]);
        assert("DelayBackLeftTime_relTo_AnodeFrontTime_noX1"@[9] != "DelayBackRightTime_relTo_AnodeBackTime_noX1"@[9]);
        assert("DelayFrontLeftTime_relTo_AnodeBackTime_noX1"@[5] != "DelayBackRightTime_relTo_AnodeBackTime_noX1"@[5]);
    }
    proof {
        assert(!reg.names().contains("X2: only1plane"@));
        assert(columns_ready(ds.names()) ==> (ds.names().contains("X2"@)));
    }
    h1(ds, reg, "X2: only1plane", 3, "X2", FP_BINS, FP_LOW, FP_HIGH)?;
    proof {
        assert(!reg.names().contains("DelayFrontLeftTime_relTo_AnodeFrontTime_noX1"@));
        assert(columns_ready(ds.names()) ==> (ds.names().contains("DelayFrontLeftTime_AnodeFrontTime"@)));
    }
    h1(ds, reg, "DelayFrontLeftTime_relTo_AnodeFrontTime_noX1", 3, "DelayFrontLeftTime_AnodeFrontTime", 8000, -4_000_000, 4_000_000)?;
    proof {
        assert(!reg.names().contains("DelayFrontRightTime_relTo_AnodeFrontTime_noX1"@));
        assert(columns_ready(ds.names()) ==> (ds.names().contains("DelayFrontRightTime_AnodeFrontTime"@)));
    }
    h1(ds, reg, "DelayFrontRightTime_relTo_AnodeFrontTime_noX1", 3, "DelayFrontRightTime_AnodeFrontTime", 8000, -4_000_000, 4_000_000)?;
    proof {
        assert(!reg.names().contains("DelayBackLeftTime_relTo_AnodeFrontTime_noX1"@));
        assert(columns_ready(ds.names()) ==> (ds.names().contains("DelayBackLeftTime_AnodeFrontTime"@)));
    }
    h1(ds, reg, "DelayBackLeftTime_relTo_AnodeFrontTime_noX1", 3, "DelayBackLeftTime_AnodeFrontTime", 8000, -4_000_000, 4_000_000)?;
    proof {
        assert(!reg.names().contains("DelayBackRightTime_relTo_AnodeFrontTime_noX1"@));
        assert(columns_ready(ds.names()) ==> (ds.names().contains("DelayBackRightTime_AnodeFrontTime"@)));
    }
    h1(ds, reg, "DelayBackRightTime_relTo_AnodeFrontTime_noX1", 3, "DelayBackRightTime_AnodeFrontTime", 8000, -4_000_000, 4_000_000)?;
    proof {
        assert(!reg.names().contains("DelayFrontLeftTime_relTo_AnodeBackTime_noX1"@));
        assert(columns_ready(ds.names()) ==> (ds.names().contains("DelayFrontLeftTime_AnodeBackTime"@)));
    }
    h1(ds, reg, "DelayFrontLeftTime_relTo_AnodeBackTime_noX1", 3, "DelayFrontLeftTime_AnodeBackTime", 8000, -4_000_000, 4_000_000)?;
    proof {
        assert(!reg.names().contains("DelayFrontRightTime_relTo_AnodeBackTime_noX1"@));
        assert(columns_ready(ds.names()) ==> (ds.names().contains("DelayFrontRightTime_AnodeBackTime"@)));
    }
    h1(ds, reg, "DelayFrontRightTime_relTo_AnodeBackTime_noX1", 3, "DelayFrontRightTime_AnodeBackTime", 8000, -4_000_000, 4_000_000)?;
    proof {
        assert(!reg.names().contains("DelayBackLeftTime_relTo_AnodeBackTime_noX1"@));
        assert(columns_ready(ds.names()) ==> (ds.names().contains("DelayBackLeftTime_AnodeBackTime"@)));
    }
    h1(ds, reg, "DelayBackLeftTime_relTo_AnodeBackTime_noX1", 3, "DelayBackLeftTime_AnodeBackTime", 8000, -4_000_000, 4_000_000)?;
    proof {
        assert(!reg.names().contains("DelayBackRightTime_relTo_AnodeBackTime_noX1"@));
        assert(columns_ready(ds.names()) ==> (ds.names().contains("DelayBackRightTime_AnodeBackTime"@)));
    }
    h1(ds, reg, "DelayBackRightTime_relTo_AnodeBackTime_noX1", 3, "DelayBackRightTime_AnodeBackTime", 8000, -4_000_000, 4_000_000)?;
    Ok(())
}

/// Registers the histograms on the view with a back-anode and a left scintillator time.
#[verifier::rlimit(100)]
fn register_time_rel_back_anode(ds: &Dataset, reg: &mut Registry) -> (r: Result<(), HistError>)
    requires
        ds.wf(),
        old(reg).valid_for(ds),
        ds.views@.len() >= 5,
        !old(reg).names().contains("AnodeFrontTime-AnodeBackTime"@),
        !old(reg).names().contains("AnodeBackTime-AnodeFrontTime"@),
        !old(reg).names().contains("AnodeFrontTime-ScintLeftTime"@),
        !old(reg).names().contains("AnodeBackTime-ScintLeftTime"@),
        !old(reg).names().contains("DelayFrontLeftTime-ScintLeftTime"@),
        !old(reg).names().contains("DelayFrontRightTime-ScintLeftTime"@),
        !old(reg).names().contains("DelayBackLeftTime-ScintLeftTime"@),
        !old(reg).names().contains("DelayBackRightTime-ScintLeftTime"@),
        !old(reg).names().contains("ScintRightTime-ScintLeftTime"@),
        !old(reg).names().contains("ScintTimeDif v Xavg"@),
    ensures
        final(reg).valid_for(ds),
        r is Ok ==> final(reg).hists@.len() == old(reg).hists@.len() + 10,
        r is Ok ==> final(reg).names() == old(reg).names().push("AnodeFrontTime-AnodeBackTime"@).push("AnodeBackTime-AnodeFrontTime"@).push("AnodeFrontTime-ScintLeftTime"@).push("AnodeBackTime-ScintLeftTime"@).push("DelayFrontLeftTime-ScintLeftTime"@).push("DelayFrontRightTime-ScintLeftTime"@).push("DelayBackLeftTime-ScintLeftTime"@).push("DelayBackRightTime-ScintLeftTime"@).push("ScintRightTime-ScintLeftTime"@).push("ScintTimeDif v Xavg"@),
        r is Ok ==> final(reg).defs() == old(reg).defs().push(def1(ds.names(), "AnodeFrontTime-AnodeBackTime"@, 4, "AnodeFrontTime_AnodeBackTime"@, 1000, -3_000_000i64, 3_000_000)).push(def1(ds.names(), "AnodeBackTime-AnodeFrontTime"@, 4, "AnodeBackTime_AnodeFrontTime"@, 1000, -3_000_000i64, 3_000_000)).push(def1(ds.names(), "AnodeFrontTime-ScintLeftTime"@, 4, "AnodeFrontTime_ScintLeftTime"@, 1000, -3_000_000i64, 3_000_000)).push(def1(ds.names(), "AnodeBackTime-ScintLeftTime"@, 4, "AnodeBackTime_ScintLeftTime"@, 1000, -3_000_000i64, 3_000_000)).push(def1(ds.names(), "DelayFrontLeftTime-ScintLeftTime"@, 4, "DelayFrontLeftTime_ScintLeftTime"@, 1000, -3_000_000i64, 3_000_000)).push(def1(ds.names(), "DelayFrontRightTime-ScintLeftTime"@, 4, "DelayFrontRightTime_ScintLeftTime"@, 1000, -3_000_000i64, 3_000_000)).push(def1(ds.names(), "DelayBackLeftTime-ScintLeftTime"@, 4, "DelayBackLeftTime_ScintLeftTime"@, 1000, -3_000_000i64, 3_000_000)).push(def1(ds.names(), "DelayBackRightTime-ScintLeftTime"@, 4, "DelayBackRightTime_ScintLeftTime"@, 1000, -3_000_000i64, 3_000_000)).push(def1(ds.names(), "ScintRightTime-ScintLeftTime"@, 4, "ScintRightTime_ScintLeftTime"@, 1000, -3_000_000i64, 3_000_000)).push(def2(ds.names(), "ScintTimeDif v Xavg"@, 4, "Xavg"@, "ScintRightTime_ScintLeftTime"@, (FP_BINS, FP_LOW, FP_HIGH), (12800, -3_200_000i64, 3_200_000))),
        columns_ready(ds.names()) ==> r is Ok,
        r matches Err(x) ==> x is DuplicateName || x is UnknownColumn,
{
    proof {
        reveal_strlit("AnodeBackTime-AnodeFrontTime");
        reveal_strlit("AnodeBackTime-ScintLeftTime");
        reveal_strlit("AnodeFrontTime-AnodeBackTime");
        reveal_strlit("AnodeFrontTime-ScintLeftTime");
        reveal_strlit("DelayBackLeftTime-ScintLeftTime");
        reveal_strlit("DelayBackRightTime-ScintLeftTime");
        reveal_strlit("DelayFrontLeftTime-ScintLeftTime");
        reveal_strlit("DelayFrontRightTime-ScintLeftTime");
        reveal_strlit("ScintRightTime-ScintLeftTime");
        reveal_strlit("ScintTimeDif v Xavg");
        assert("AnodeBackTime-AnodeFrontTime"@.len() == 28);
        assert("AnodeBackTime-ScintLeftTime"@.len() == 27);
        assert("AnodeFrontTime-AnodeBackTime"@.len() == 28);
        assert("AnodeFrontTime-ScintLeftTime"@.len() == 28);
        assert("DelayBackLeftTime-ScintLeftTime"@.len() == 31);
        assert("DelayBackRightTime-ScintLeftTime"@.len() == 32);
        assert("DelayFrontLeftTime-ScintLeftTime"@.len() == 32);
        assert("DelayFrontRightTime-ScintLeftTime"@.len() == 33);
        assert("ScintRightTime-ScintLeftTime"@.len() == 28);
        assert("ScintTimeDif v Xavg"@.len() == 19);
        assert("AnodeFrontTime-AnodeBackTime"@[5] != "AnodeBackTime-AnodeFrontTime"@[5]);
        assert("AnodeFrontTime-AnodeBackTime"@[15] != "AnodeFrontTime-ScintLeftTime"@[15]);
        assert("AnodeBackTime-AnodeFrontTime"@[5] != "AnodeFrontTime-ScintLeftTime"@[5]);
        assert("DelayFrontLeftTime-ScintLeftTime"@[5] != "DelayBackRightTime-ScintLeftTime"@[5]);
        assert("AnodeFrontTime-AnodeBackTime"@[0] != "ScintRightTime-ScintLeftTime"@[0]);
        assert("AnodeBackTime-AnodeFrontTime"@[0] != "ScintRightTime-ScintLeftTime"@[0]);
        assert("AnodeFrontTime-ScintLeftTime"@[0] != "ScintRightTime-ScintLeftTime"@[0]);
    }
    proof {
        assert(!reg.names().contains("AnodeFrontTime-AnodeBackTime"@));
        assert(columns_ready(ds.names()) ==> (ds.names().contains("AnodeFrontTime_AnodeBackTime"@)));
    }
    h1(ds, reg, "AnodeFrontTime-AnodeBackTime", 4, "AnodeFrontTime_AnodeBackTime", 1000, -3_000_000, 3_000_000)?;
    proof {
        assert(!reg.names().contains("AnodeBackTime-AnodeFrontTime"@));
        assert(columns_ready(ds.names()) ==> (ds.names().contains("AnodeBackTime_AnodeFrontTime"@)));
    }
    h1(ds, reg, "AnodeBackTime-AnodeFrontTime", 4, "AnodeBackTime_AnodeFrontTime", 1000, -3_000_000, 3_000_000)?;
    proof {
        assert(!reg.names().contains("AnodeFrontTime-ScintLeftTime"@));
        assert(columns_ready(ds.names()) ==> (ds.names().contains("AnodeFrontTime_ScintLeftTime"@)));
    }
    h1(ds, reg, "AnodeFrontTime-ScintLeftTime", 4, "AnodeFrontTime_ScintLeftTime", 1000, -3_000_000, 3_000_000)?;
    proof {
        assert(!reg.names().contains("AnodeBackTime-ScintLeftTime"@));
        assert(columns_ready(ds.names()) ==> (ds.names().contains("AnodeBackTime_ScintLeftTime"@)));
    }
    h1(ds, reg, "AnodeBackTime-ScintLeftTime", 4, "AnodeBackTime_ScintLeftTime", 1000, -3_000_000, 3_000_000)?;
    proof {
        assert(!reg.names().contains("DelayFrontLeftTime-ScintLeftTime"@));
        assert(columns_ready(ds.names()) ==> (ds.names().contains("DelayFrontLeftTime_ScintLeftTime"@)));
    }
    h1(ds, reg, "DelayFrontLeftTime-ScintLeftTime", 4, "DelayFrontLeftTime_ScintLeftTime", 1000, -3_000_000, 3_000_000)?;
    proof {
        assert(!reg.names().contains("DelayFrontRightTime-ScintLeftTime"@));
        assert(columns_ready(ds.names()) ==> (ds.names().contains("DelayFrontRightTime_ScintLeftTime"@)));
    }
    h1(ds, reg, "DelayFrontRightTime-ScintLeftTime", 4, "DelayFrontRightTime_ScintLeftTime", 1000, -3_000_000, 3_000_000)?;
    proof {
        assert(!reg.names().contains("DelayBackLeftTime-ScintLeftTime"@));
        assert(columns_ready(ds.names()) ==> (ds.names().contains("DelayBackLeftTime_ScintLeftTime"@)));
    }
    h1(ds, reg, "DelayBackLeftTime-ScintLeftTime", 4, "DelayBackLeftTime_ScintLeftTime", 1000, -3_000_000, 3_000_000)?;
    proof {
        assert(!reg.names().contains("DelayBackRightTime-ScintLeftTime"@));
        assert(columns_ready(ds.names()) ==> (ds.names().contains("DelayBackRightTime_ScintLeftTime"@)));
    }
    h1(ds, reg, "DelayBackRightTime-ScintLeftTime", 4, "DelayBackRightTime_ScintLeftTime", 1000, -3_000_000, 3_000_000)?;
    proof {
        assert(!reg.names().contains("ScintRightTime-ScintLeftTime"@));
        assert(columns_ready(ds.names()) ==> (ds.names().contains("ScintRightTime_ScintLeftTime"@)));
    }
    h1(ds, reg, "ScintRightTime-ScintLeftTime", 4, "ScintRightTime_ScintLeftTime", 1000, -3_000_000, 3_000_000)?;
    proof {
        assert(!reg.names().contains("ScintTimeDif v Xavg"@));
        assert(columns_ready(ds.names()) ==> (ds.names().contains("Xavg"@) && ds.names().contains("ScintRightTime_ScintLeftTime"@)));
    }
    h2(ds, reg, "ScintTimeDif v Xavg", 4, "Xavg", "ScintRightTime_ScintLeftTime", (FP_BINS, FP_LOW, FP_HIGH), (12800, -3_200_000, 3_200_000))?;
    Ok(())
}

/// Registers the battery's histograms on a context built by `build_context`.
#[verifier::rlimit(100)]
pub fn register_battery(ds: &Dataset, reg: &mut Registry) -> (r: Result<(), HistError>)
    requires
        ds.wf(),
        old(reg).valid_for(ds),
        old(reg).hists@.len() == 0,
        ds.views@.len() >= 5,
    ensures
        final(reg).valid_for(ds),
        r is Ok ==> final(reg).hists@.len() == 83,
        r is Ok ==> final(reg).defs() == battery_defs(ds.names()),
        columns_ready(ds.names()) ==> r is Ok,
        r matches Err(x) ==> x is DuplicateName || x is UnknownColumn,
{
    proof {
        reveal_strlit("AnodeBack v ScintLeft");
        reveal_strlit("AnodeBack v ScintRight");
        reveal_strlit("AnodeBack v X1");
        reveal_strlit("AnodeBack v X2");
        reveal_strlit("AnodeBack v Xavg");
        reveal_strlit("AnodeBackTime-AnodeFrontTime");
        reveal_strlit("AnodeBackTime-ScintLeftTime");
        reveal_strlit("AnodeFront v ScintLeft");
        reveal_strlit("AnodeFront v ScintRight");
        reveal_strlit("AnodeFront v X1");
        reveal_strlit("AnodeFront v X2");
        reveal_strlit("AnodeFront v Xavg");
        reveal_strlit("AnodeFrontTime-AnodeBackTime");
        reveal_strlit("AnodeFrontTime-ScintLeftTime");
        reveal_strlit("Cathode v ScintLeft");
        reveal_strlit("Cathode v ScintRight");
        reveal_strlit("Cathode v X1");
        reveal_strlit("Cathode v X2");
        reveal_strlit("Cathode v Xavg");
        reveal_strlit("Cebra0Energy");
        reveal_strlit("Cebra1Energy");
        reveal_strlit("Cebra2Energy");
        reveal_strlit("Cebra3Energy");
        reveal_strlit("Cebra4Energy");
        reveal_strlit("DelayBackAverage v X1");
        reveal_strlit("DelayBackAverage v X2");
        reveal_strlit("DelayBackAverage v Xavg");
        reveal_strlit("DelayBackLeft v X1");
        reveal_strlit("DelayBackLeft v X2");
        reveal_strlit("DelayBackLeft v Xavg");
        reveal_strlit("DelayBackLeftTime-ScintLeftTime");
        reveal_strlit("DelayBackLeftTime_relTo_AnodeBackTime_bothplanes");
        reveal_strlit("DelayBackLeftTime_relTo_AnodeBackTime_noX1");
        reveal_strlit("DelayBackLeftTime_relTo_AnodeBackTime_noX2");
        reveal_strlit("DelayBackLeftTime_relTo_AnodeFrontTime_noX1");
        reveal_strlit("DelayBackLeftTime_relTo_AnodeFrontTime_noX2");
        reveal_strlit("DelayBackRight v X1");
        reveal_strlit("DelayBackRight v X2");
        reveal_strlit("DelayBackRight v Xavg");
        reveal_strlit("DelayBackRightTime-ScintLeftTime");
        reveal_strlit("DelayBackRightTime_relTo_AnodeBackTime_bothplanes");
        reveal_strlit("DelayBackRightTime_relTo_AnodeBackTime_noX1");
        reveal_strlit("DelayBackRightTime_relTo_AnodeBackTime_noX2");
        reveal_strlit("DelayBackRightTime_relTo_AnodeFrontTime_noX1");
        reveal_strlit("DelayBackRightTime_relTo_AnodeFrontTime_noX2");
        reveal_strlit("DelayFrontAverage v X1");
        reveal_strlit("DelayFrontAverage v X2");
        reveal_strlit("DelayFrontAverage v Xavg");
        reveal_strlit("DelayFrontLeft v X1");
        reveal_strlit("DelayFrontLeft v X2");
        reveal_strlit("DelayFrontLeft v Xavg");
        reveal_strlit("DelayFrontLeftTime-ScintLeftTime");
        reveal_strlit("DelayFrontLeftTime_relTo_AnodeBackTime_noX1");
        reveal_strlit("DelayFrontLeftTime_relTo_AnodeBackTime_noX2");
        reveal_strlit("DelayFrontLeftTime_relTo_AnodeFrontTime_bothplanes");
        reveal_strlit("DelayFrontLeftTime_relTo_AnodeFrontTime_noX1");
        reveal_strlit("DelayFrontLeftTime_relTo_AnodeFrontTime_noX2");
        reveal_strlit("DelayFrontRight v X1");
        reveal_strlit("DelayFrontRight v X2");
        reveal_strlit("DelayFrontRight v Xavg");
        reveal_strlit("DelayFrontRightTime-ScintLeftTime");
        reveal_strlit("DelayFrontRightTime_relTo_AnodeBackTime_noX1");
        reveal_strlit("DelayFrontRightTime_relTo_AnodeBackTime_noX2");
        reveal_strlit("DelayFrontRightTime_relTo_AnodeFrontTime_bothplanes");
        reveal_strlit("DelayFrontRightTime_relTo_AnodeFrontTime_noX1");
        reveal_strlit("DelayFrontRightTime_relTo_AnodeFrontTime_noX2");
        reveal_strlit("ScintLeft v X1");
        reveal_strlit("ScintLeft v X2");
        reveal_strlit("ScintLeft v Xavg");
        reveal_strlit("ScintRight v X1");
        reveal_strlit("ScintRight v X2");
        reveal_strlit("ScintRight v Xavg");
        reveal_strlit("ScintRightTime-ScintLeftTime");
        reveal_strlit("ScintTimeDif v Xavg");
        reveal_strlit("Theta v Xavg: bothplanes");
        reveal_strlit("X1");
        reveal_strlit("X1: bothplanes");
        reveal_strlit("X1: only1plane");
        reveal_strlit("X2");
        reveal_strlit("X2 v X1");
        reveal_strlit("X2: bothplanes");
        reveal_strlit("X2: only1plane");
        reveal_strlit("Xavg: bothplanes");
        assert("AnodeBack v ScintLeft"@.len() == 21);
        assert("AnodeBack v ScintRight"@.len() == 22);
        assert("AnodeBack v X1"@.len() == 14);
        assert("AnodeBack v X2"@.len() == 14);
        assert("AnodeBack v Xavg"@.len() == 16);
        assert("AnodeBackTime-AnodeFrontTime"@.len() == 28);
        assert("AnodeBackTime-ScintLeftTime"@.len() == 27);
        assert("AnodeFront v ScintLeft"@.len() == 22);
        assert("AnodeFront v ScintRight"@.len() == 23);
        assert("AnodeFront v X1"@.len() == 15);
        assert("AnodeFront v X2"@.len() == 15);
        assert("AnodeFront v Xavg"@.len() == 17);
        assert("AnodeFrontTime-AnodeBackTime"@.len() == 28);
        assert("AnodeFrontTime-ScintLeftTime"@.len() == 28);
        assert("Cathode v ScintLeft"@.len() == 19);
        assert("Cathode v ScintRight"@.len() == 20);
        assert("Cathode v X1"@.len() == 12);
        assert("Cathode v X2"@.len() == 12);
        assert("Cathode v Xavg"@.len() == 14);
        assert("Cebra0Energy"@.len() == 12);
        assert("Cebra1Energy"@.len() == 12);
        assert("Cebra2Energy"@.len() == 12);
        assert("Cebra3Energy"@.len() == 12);
        assert("Cebra4Energy"@.len() == 12);
        assert("DelayBackAverage v X1"@.len() == 21);
        assert("DelayBackAverage v X2"@.len() == 21);
        assert("DelayBackAverage v Xavg"@.len() == 23);
        assert("DelayBackLeft v X1"@.len() == 18);
        assert("DelayBackLeft v X2"@.len() == 18);
        assert("DelayBackLeft v Xavg"@.len() == 20);
        assert("DelayBackLeftTime-ScintLeftTime"@.len() == 31);
        assert("DelayBackLeftTime_relTo_AnodeBackTime_bothplanes"@.len() == 48);
        assert("DelayBackLeftTime_relTo_AnodeBackTime_noX1"@.len() == 42);
        assert("DelayBackLeftTime_relTo_AnodeBackTime_noX2"@.len() == 42);
        assert("DelayBackLeftTime_relTo_AnodeFrontTime_noX1"@.len() == 43);
        assert("DelayBackLeftTime_relTo_AnodeFrontTime_noX2"@.len() == 43);
        assert("DelayBackRight v X1"@.len() == 19);
        assert("DelayBackRight v X2"@.len() == 19);
        assert("DelayBackRight v Xavg"@.len() == 21);
        assert("DelayBackRightTime-ScintLeftTime"@.len() == 32);
        assert("DelayBackRightTime_relTo_AnodeBackTime_bothplanes"@.len() == 49);
        assert("DelayBackRightTime_relTo_AnodeBackTime_noX1"@.len() == 43);
        assert("DelayBackRightTime_relTo_AnodeBackTime_noX2"@.len() == 43);
        assert("DelayBackRightTime_relTo_AnodeFrontTime_noX1"@.len() == 44);
        assert("DelayBackRightTime_relTo_AnodeFrontTime_noX2"@.len() == 44);
        assert("DelayFrontAverage v X1"@.len() == 22);
        assert("DelayFrontAverage v X2"@.len() == 22);
        assert("DelayFrontAverage v Xavg"@.len() == 24);
        assert("DelayFrontLeft v X1"@.len() == 19);
        assert("DelayFrontLeft v X2"@.len() == 19);
        assert("DelayFrontLeft v Xavg"@.len() == 21);
        assert("DelayFrontLeftTime-ScintLeftTime"@.len() == 32);
        assert("DelayFrontLeftTime_relTo_AnodeBackTime_noX1"@.len() == 43);
        assert("DelayFrontLeftTime_relTo_AnodeBackTime_noX2"@.len() == 43);
        assert("DelayFrontLeftTime_relTo_AnodeFrontTime_bothplanes"@.len() == 50);
        assert("DelayFrontLeftTime_relTo_AnodeFrontTime_noX1"@.len() == 44);
        assert("DelayFrontLeftTime_relTo_AnodeFrontTime_noX2"@.len() == 44);
        assert("DelayFrontRight v X1"@.len() == 20);
        assert("DelayFrontRight v X2"@.len() == 20);
        assert("DelayFrontRight v Xavg"@.len() == 22);
        assert("DelayFrontRightTime-ScintLeftTime"@.len() == 33);
        assert("DelayFrontRightTime_relTo_AnodeBackTime_noX1"@.len() == 44);
        assert("DelayFrontRightTime_relTo_AnodeBackTime_noX2"@.len() == 44);
        assert("DelayFrontRightTime_relTo_AnodeFrontTime_bothplanes"@.len() == 51);
        assert("DelayFrontRightTime_relTo_AnodeFrontTime_noX1"@.len() == 45);
        assert("DelayFrontRightTime_relTo_AnodeFrontTime_noX2"@.len() == 45);
        assert("ScintLeft v X1"@.len() == 14);
        assert("ScintLeft v X2"@.len() == 14);
        assert("ScintLeft v Xavg"@.len() == 16);
        assert("ScintRight v X1"@.len() == 15);
        assert("ScintRight v X2"@.len() == 15);
        assert("ScintRight v Xavg"@.len() == 17);
        assert("ScintRightTime-ScintLeftTime"@.len() == 28);
        assert("ScintTimeDif v Xavg"@.len() == 19);
        assert("Theta v Xavg: bothplanes"@.len() == 24);
        assert("X1"@.len() == 2);
        assert("X1: bothplanes"@.len() == 14);
        assert("X1: only1plane"@.len() == 14);
        assert("X2"@.len() == 2);
        assert("X2 v X1"@.len() == 7);
        assert("X2: bothplanes"@.len() == 14);
        assert("X2: only1plane"@.len() == 14);
        assert("Xavg: bothplanes"@.len() == 16);
        assert("ScintLeft v X1"@[0] != "X1: bothplanes"@[0]);
        assert("ScintLeft v X2"@[0] != "X1: bothplanes"@[0]);
        assert("AnodeBack v X1"@[0] != "X1: bothplanes"@[0]);
        assert("AnodeBack v X2"@[0] != "X1: bothplanes"@[0]);
        assert("Cathode v Xavg"@[0] != "X1: bothplanes"@[0]);
        assert("ScintLeft v X1"@[0] != "X2: bothplanes"@[0]);
        assert("ScintLeft v X2"@[0] != "X2: bothplanes"@[0]);
        assert("AnodeBack v X1"@[0] != "X2: bothplanes"@[0]);
        assert("AnodeBack v X2"@[0] != "X2: bothplanes"@[0]);
        assert("Cathode v Xavg"@[0] != "X2: bothplanes"@[0]);
        assert("ScintLeft v Xavg"@[0] != "Xavg: bothplanes"@[0]);
        assert("AnodeBack v Xavg"@[0] != "Xavg: bothplanes"@[0]);
        assert("DelayFrontAverage v Xavg"@[0] != "Theta v Xavg: bothplanes"@[0]);
        assert("ScintLeft v X1"@[0] != "X1: only1plane"@[0]);
        assert("ScintLeft v X2"@[0] != "X1: only1plane"@[0]);
        assert("AnodeBack v X1"@[0] != "X1: only1plane"@[0]);
        assert("AnodeBack v X2"@[0] != "X1: only1plane"@[0]);
        assert("Cathode v Xavg"@[0] != "X1: only1plane"@[0]);
        assert("X1: bothplanes"@[4] != "X1: only1plane"@[4]);
        assert("X2: bothplanes"@[1] != "X1: only1plane"@[1]);
        assert("ScintLeft v X1"@[0] != "X2: only1plane"@[0]);
        assert("ScintLeft v X2"@[0] != "X2: only1plane"@[0]);
        assert("AnodeBack v X1"@[0] != "X2: only1plane"@[0]);
        assert("AnodeBack v X2"@[0] != "X2: only1plane"@[0]);
        assert("Cathode v Xavg"@[0] != "X2: only1plane"@[0]);
        assert("X1: bothplanes"@[1] != "X2: only1plane"@[1]);
        assert("X2: bothplanes"@[4] != "X2: only1plane"@[4]);
        assert("X1: only1plane"@[1] != "X2: only1plane"@[1]);
        assert("DelayFrontLeftTime_relTo_AnodeFrontTime_noX2"@[43] != "DelayFrontLeftTime_relTo_AnodeFrontTime_noX1"@[43]);
        assert("DelayBackRightTime_relTo_AnodeFrontTime_noX2"@[5] != "DelayFrontLeftTime_relTo_AnodeFrontTime_noX1"@[5]);
        assert("DelayFrontRightTime_relTo_AnodeBackTime_noX2"@[10] != "DelayFrontLeftTime_relTo_AnodeFrontTime_noX1"@[10]);
        assert("DelayFrontRightTime_relTo_AnodeFrontTime_noX2"@[44] != "DelayFrontRightTime_relTo_AnodeFrontTime_noX1"@[44]);
        assert("DelayBackLeftTime_relTo_AnodeFrontTime_noX2"@[42] != "DelayBackLeftTime_relTo_AnodeFrontTime_noX1"@[42]);
        assert("DelayFrontLeftTime_relTo_AnodeBackTime_noX2"@[5] != "DelayBackLeftTime_relTo_AnodeFrontTime_noX1"@[5]);
        assert("DelayBackRightTime_relTo_AnodeBackTime_noX2"@[9] != "DelayBackLeftTime_relTo_AnodeFrontTime_noX1"@[9]);
        assert("DelayFrontLeftTime_relTo_AnodeFrontTime_noX2"@[5] != "DelayBackRightTime_relTo_AnodeFrontTime_noX1"@[5]);
        assert("DelayBackRightTime_relTo_AnodeFrontTime_noX2"@[43] != "DelayBackRightTime_relTo_AnodeFrontTime_noX1"@[43]);
        assert("DelayFrontRightTime_relTo_AnodeBackTime_noX2"@[5] != "DelayBackRightTime_relTo_AnodeFrontTime_noX1"@[5]);
        assert("DelayBackLeftTime_relTo_AnodeFrontTime_noX2"@[5] != "DelayFrontLeftTime_relTo_AnodeBackTime_noX1"@[5]);
        assert("DelayFrontLeftTime_relTo_AnodeBackTime_noX2"@[42] != "DelayFrontLeftTime_relTo_AnodeBackTime_noX1"@[42]);
        assert("DelayBackRightTime_relTo_AnodeBackTime_noX2"@[5] != "DelayFrontLeftTime_relTo_AnodeBackTime_noX1"@[5]);
        assert("DelayFrontLeftTime_relTo_AnodeFrontTime_noX2"@[10] != "DelayFrontRightTime_relTo_AnodeBackTime_noX1"@[10]);
        assert("DelayBackRightTime_relTo_AnodeFrontTime_noX2"@[5] != "DelayFrontRightTime_relTo_AnodeBackTime_noX1"@[5]);
        assert("DelayFrontRightTime_relTo_AnodeBackTime_noX2"@[43] != "DelayFrontRightTime_relTo_AnodeBackTime_noX1"@[43]);
        assert("DelayBackLeftTime_relTo_AnodeBackTime_noX2"@[41] != "DelayBackLeftTime_relTo_AnodeBackTime_noX1"@[41]);
        assert("DelayBackLeftTime_relTo_AnodeFrontTime_noX2"@[9] != "DelayBackRightTime_relTo_AnodeBackTime_noX1"@[9]);
        assert("DelayFrontLeftTime_relTo_AnodeBackTime_noX2"@[5] != "DelayBackRightTime_relTo_AnodeBackTime_noX1"@[5]);
        assert("DelayBackRightTime_relTo_AnodeBackTime_noX2"@[42] != "DelayBackRightTime_relTo_AnodeBackTime_noX1"@[42]);
        assert("DelayBackRight v X1"@[0] != "ScintTimeDif v Xavg"@[0]);
        assert("DelayFrontLeft v X1"@[0] != "ScintTimeDif v Xavg"@[0]);
        assert("DelayBackRight v X2"@[0] != "ScintTimeDif v Xavg"@[0]);
        assert("DelayFrontLeft v X2"@[0] != "ScintTimeDif v Xavg"@[0]);
        assert("Cathode v ScintLeft"@[0] != "ScintTimeDif v Xavg"@[0]);
        assert(reg.names() =~= Seq::<Seq<char>>::empty());
        assert(reg.defs() =~= Seq::<(Seq<char>, usize, Axes)>::empty());
    }
    proof {
        assert(!reg.names().contains("Cebra0Energy"@));
        assert(!reg.names().contains("Cebra1Energy"@));
        assert(!reg.names().contains("Cebra2Energy"@));
        assert(!reg.names().contains("Cebra3Energy"@));
        assert(!reg.names().contains("Cebra4Energy"@));
        assert(!reg.names().contains("X1"@));
        assert(!reg.names().contains("X2"@));
        assert(!reg.names().contains("X2 v X1"@));
        assert(!reg.names().contains("DelayBackRight v X1"@));
        assert(!reg.names().contains("DelayBackLeft v X1"@));
        assert(!reg.names().contains("DelayFrontRight v X1"@));
        assert(!reg.names().contains("DelayFrontLeft v X1"@));
        assert(!reg.names().contains("DelayBackRight v X2"@));
        assert(!reg.names().contains("DelayBackLeft v X2"@));
        assert(!reg.names().contains("DelayFrontRight v X2"@));
        assert(!reg.names().contains("DelayFrontLeft v X2"@));
        assert(!reg.names().contains("DelayBackRight v Xavg"@));
        assert(!reg.names().contains("DelayBackLeft v Xavg"@));
        assert(!reg.names().contains("DelayFrontRight v Xavg"@));
        assert(!reg.names().contains("DelayFrontLeft v Xavg"@));
        assert(!reg.names().contains("DelayFrontAverage v X1"@));
        assert(!reg.names().contains("DelayBackAverage v X1"@));
        assert(!reg.names().contains("DelayFrontAverage v X2"@));
        assert(!reg.names().contains("DelayBackAverage v X2"@));
        assert(!reg.names().contains("DelayFrontAverage v Xavg"@));
        assert(!reg.names().contains("DelayBackAverage v Xavg"@));
        assert(!reg.names().contains("AnodeBack v ScintLeft"@));
        assert(!reg.names().contains("AnodeFront v ScintLeft"@));
        assert(!reg.names().contains("Cathode v ScintLeft"@));
        assert(!reg.names().contains("AnodeBack v ScintRight"@));
        assert(!reg.names().contains("AnodeFront v ScintRight"@));
        assert(!reg.names().contains("Cathode v ScintRight"@));
        assert(!reg.names().contains("ScintLeft v X1"@));
        assert(!reg.names().contains("ScintLeft v X2"@));
        assert(!reg.names().contains("ScintLeft v Xavg"@));
        assert(!reg.names().contains("ScintRight v X1"@));
        assert(!reg.names().contains("ScintRight v X2"@));
        assert(!reg.names().contains("ScintRight v Xavg"@));
        assert(!reg.names().contains("AnodeBack v X1"@));
        assert(!reg.names().contains("AnodeBack v X2"@));
        assert(!reg.names().contains("AnodeBack v Xavg"@));
        assert(!reg.names().contains("AnodeFront v X1"@));
        assert(!reg.names().contains("AnodeFront v X2"@));
        assert(!reg.names().contains("AnodeFront v Xavg"@));
        assert(!reg.names().contains("Cathode v X1"@));
        assert(!reg.names().contains("Cathode v X2"@));
        assert(!reg.names().contains("Cathode v Xavg"@));
    }
    register_base(ds, reg)?;
    proof {
        assert(!reg.names().contains("X1: bothplanes"@));
        assert(!reg.names().contains("X2: bothplanes"@));
        assert(!reg.names().contains("Xavg: bothplanes"@));
        assert(!reg.names().contains("Theta v Xavg: bothplanes"@));
        assert(!reg.names().contains("DelayFrontLeftTime_relTo_AnodeFrontTime_bothplanes"@));
        assert(!reg.names().contains("DelayFrontRightTime_relTo_AnodeFrontTime_bothplanes"@));
        assert(!reg.names().contains("DelayBackLeftTime_relTo_AnodeBackTime_bothplanes"@));
        assert(!reg.names().contains("DelayBackRightTime_relTo_AnodeBackTime_bothplanes"@));
    }
    register_both_planes(ds, reg)?;
    proof {
        assert(!reg.names().contains("X1: only1plane"@));
        assert(!reg.names().contains("DelayFrontLeftTime_relTo_AnodeFrontTime_noX2"@));
        assert(!reg.names().contains("DelayFrontRightTime_relTo_AnodeFrontTime_noX2"@));
        assert(!reg.names().contains("DelayBackLeftTime_relTo_AnodeFrontTime_noX2"@));
        assert(!reg.names().contains("DelayBackRightTime_relTo_AnodeFrontTime_noX2"@));
        assert(!reg.names().contains("DelayFrontLeftTime_relTo_AnodeBackTime_noX2"@));
        assert(!reg.names().contains("DelayFrontRightTime_relTo_AnodeBackTime_noX2"@));
        assert(!reg.names().contains("DelayBackLeftTime_relTo_AnodeBackTime_noX2"@));
        assert(!reg.names().contains("DelayBackRightTime_relTo_AnodeBackTime_noX2"@));
    }
    register_only_x1_plane(ds, reg)?;
    proof {
        assert(!reg.names().contains("X2: only1plane"@));
        assert(!reg.names().contains("DelayFrontLeftTime_relTo_AnodeFrontTime_noX1"@));
        assert(!reg.names().contains("DelayFrontRightTime_relTo_AnodeFrontTime_noX1"@));
        assert(!reg.names().contains("DelayBackLeftTime_relTo_AnodeFrontTime_noX1"@));
        assert(!reg.names().contains("DelayBackRightTime_relTo_AnodeFrontTime_noX1"@));
        assert(!reg.names().contains("DelayFrontLeftTime_relTo_AnodeBackTime_noX1"@));
        assert(!reg.names().contains("DelayFrontRightTime_relTo_AnodeBackTime_noX1"@));
        assert(!reg.names().contains("DelayBackLeftTime_relTo_AnodeBackTime_noX1"@));
        assert(!reg.names().contains("DelayBackRightTime_relTo_AnodeBackTime_noX1"@));
    }
    register_only_x2_plane(ds, reg)?;
    proof {
        assert(!reg.names().contains("AnodeFrontTime-AnodeBackTime"@));
        assert(!reg.names().contains("AnodeBackTime-AnodeFrontTime"@));
        assert(!reg.names().contains("AnodeFrontTime-ScintLeftTime"@));
        assert(!reg.names().contains("AnodeBackTime-ScintLeftTime"@));
        assert(!reg.names().contains("DelayFrontLeftTime-ScintLeftTime"@));
        assert(!reg.names().contains("DelayFrontRightTime-ScintLeftTime"@));
        assert(!reg.names().contains("DelayBackLeftTime-ScintLeftTime"@));
        assert(!reg.names().contains("DelayBackRightTime-ScintLeftTime"@));
        assert(!reg.names().contains("ScintRightTime-ScintLeftTime"@));
        assert(!reg.names().contains("ScintTimeDif v Xavg"@));
    }
    register_time_rel_back_anode(ds, reg)?;
    Ok(())
}

/// Builds the dataset context over `base_columns` with the derived columns
/// and filtered views of the standard battery, and registers its histograms.
/// It succeeds whenever the base columns are ready for the battery; it fails
/// with `DuplicateName` if a name repeats (among the base columns, say) and
/// with `UnknownColumn` if a column that the battery reads is missing.
pub fn add_histograms(base_columns: Vec<String>) -> (r: Result<(Dataset, Registry), HistError>)
    ensures
        r matches Ok((ds, reg)) ==> {
            &&& ds.wf()
            &&& reg.valid_for(&ds)
            &&& ds.n_base == base_columns@.len()
            &&& ds.derived@.len() == 19
            &&& ds.views@.len() == 5
            &&& reg.hists@.len() == 83
            &&& ds.names() == name_seq(base_columns@) + derived_names()
            &&& ds.derived@ == battery_formulas(ds.names())
            &&& ds.views@[1].parent == Some(0usize)
            &&& ds.views@[1].filters@ == hit_filters(ds.names(), "X1"@, Comparator::Neq, "X2"@, Comparator::Neq)
            &&& ds.views@[2].parent == Some(0usize)
            &&& ds.views@[2].filters@ == hit_filters(ds.names(), "X1"@, Comparator::Neq, "X2"@, Comparator::Eq)
            &&& ds.views@[3].parent == Some(0usize)
            &&& ds.views@[3].filters@ == hit_filters(ds.names(), "X2"@, Comparator::Neq, "X1"@, Comparator::Eq)
            &&& ds.views@[4].parent == Some(0usize)
            &&& ds.views@[4].filters@ == hit_filters(ds.names(), "AnodeBackTime"@, Comparator::Neq, "ScintLeftTime"@, Comparator::Neq)
            &&& reg.defs() == battery_defs(ds.names())
        },
        battery_ready(name_seq(base_columns@)) ==> r is Ok,
        !distinct(name_seq(base_columns@)) ==> r is Err && r->Err_0 is DuplicateName,
        r matches Err(x) ==> x is DuplicateName || x is UnknownColumn,
{
    let ds = build_context(base_columns)?;
    let mut reg = Registry::new();
    proof {
        assert(reg.names() =~= Seq::<Seq<char>>::empty());
    }
    register_battery(&ds, &mut reg)?;
    Ok((ds, reg))
}

} // verus!
