use histoer::bins::BinSpec;
use histoer::dataset::{Dataset, Filter, Predicate};
use histoer::error::HistError;
use histoer::expr::{Expr, Formula};
use histoer::histogram_script::add_histograms;
use histoer::registry::{Axes, Registry, Status};
use histoer::sample::{BinOp, Comparator, Sample};

const SENTINEL: i64 = -1_000_000_000;

fn names(v: &[&str]) -> Vec<String> {
    v.iter().map(|s| s.to_string()).collect()
}

fn fin(x: i64) -> Sample {
    Sample::Finite(x)
}

fn counts(reg: &Registry, name: &str) -> Vec<u64> {
    reg.get(&name.to_string()).unwrap().counts.clone()
}

fn col(name: &str) -> Box<Expr> {
    Box::new(Expr::Column(name.to_string()))
}

#[test]
fn single_column_example() {
    let ds = Dataset::new(names(&["x"])).unwrap();
    let mut reg = Registry::new();
    let spec = BinSpec::new(3, 0, 30_000).unwrap();
    reg.register_1d(&ds, "x".to_string(), ds.base_view(), &"x".to_string(), spec).unwrap();
    let rows = vec![vec![fin(SENTINEL)], vec![fin(10_000)], vec![fin(20_000)], vec![fin(300_000)]];
    reg.run(&ds, &rows);
    let c = counts(&reg, "x");
    assert_eq!(c, vec![0, 1, 1]);
    let total: u64 = c.iter().sum();
    assert_eq!(total, 2);
    assert_eq!(rows.len() as u64 - total, 2);
    assert_eq!(reg.get(&"x".to_string()).unwrap().status, Status::Complete);
}

#[test]
fn zero_bin_count_is_rejected_without_side_effects() {
    let ds = Dataset::new(names(&["x"])).unwrap();
    let mut reg = Registry::new();
    let bad = BinSpec { bin_count: 0, low: 0, high: 10 };
    let r = reg.register_1d(&ds, "h".to_string(), 0, &"x".to_string(), bad);
    assert_eq!(r, Err(HistError::InvalidBinSpec));
    assert_eq!(reg.hists.len(), 0);
    assert!(reg.get(&"h".to_string()).is_none());
    let inverted = BinSpec { bin_count: 4, low: 10, high: 0 };
    let r2 = reg.register_2d(&ds, "g".to_string(), 0, &"x".to_string(), &"x".to_string(), inverted, inverted);
    assert_eq!(r2, Err(HistError::InvalidBinSpec));
    assert_eq!(reg.hists.len(), 0);
}

#[test]
fn registration_errors() {
    let mut ds = Dataset::new(names(&["a", "b"])).unwrap();
    let mut reg = Registry::new();
    let spec = BinSpec::new(4, 0, 4_000).unwrap();
    assert_eq!(reg.register_1d(&ds, "h".to_string(), 0, &"a".to_string(), spec), Ok(()));
    assert_eq!(
        reg.register_1d(&ds, "h".to_string(), 0, &"b".to_string(), spec),
        Err(HistError::DuplicateName)
    );
    assert_eq!(
        reg.register_1d(&ds, "k".to_string(), 7, &"b".to_string(), spec),
        Err(HistError::UnknownView)
    );
    assert_eq!(
        reg.register_1d(&ds, "k".to_string(), 0, &"c".to_string(), spec),
        Err(HistError::UnknownColumn)
    );
    assert_eq!(
        reg.register_2d(&ds, "k".to_string(), 0, &"a".to_string(), &"c".to_string(), spec, spec),
        Err(HistError::UnknownColumn)
    );
    assert_eq!(reg.hists.len(), 1);
    let bad = Expr::Binary(BinOp::Add, col("a"), col("missing"));
    assert_eq!(ds.add_derived("s".to_string(), &bad), Err(HistError::UnknownColumn));
    assert_eq!(ds.add_derived("a".to_string(), &Expr::Literal(fin(1))), Err(HistError::DuplicateName));
    let f = vec![Filter { column: "nope".to_string(), cmp: Comparator::Eq, constant: fin(0) }];
    assert_eq!(ds.add_view(0, &f), Err(HistError::UnknownColumn));
    assert_eq!(ds.add_view(5, &Vec::new()), Err(HistError::UnknownView));
    assert_eq!(ds.columns.len(), 2);
    assert_eq!(ds.views.len(), 1);
}

#[test]
fn duplicate_base_columns_are_rejected() {
    assert!(matches!(Dataset::new(names(&["a", "b", "a"])), Err(HistError::DuplicateName)));
}

#[test]
fn derived_columns_are_evaluated_per_row() {
    let mut ds = Dataset::new(names(&["l", "r"])).unwrap();
    let avg = Expr::Binary(
        BinOp::Div,
        Box::new(Expr::Binary(BinOp::Add, col("l"), col("r"))),
        Box::new(Expr::Literal(fin(2_000))),
    );
    assert_eq!(ds.add_derived("avg".to_string(), &avg), Ok(2));
    let diff = Expr::Binary(BinOp::Sub, col("avg"), col("l"));
    assert_eq!(ds.add_derived("diff".to_string(), &diff), Ok(3));
    let vals = ds.full_row(&vec![fin(1_000), fin(4_000)]);
    assert_eq!(vals, vec![fin(1_000), fin(4_000), fin(2_500), fin(1_500)]);
    let by_zero = Expr::Binary(BinOp::Div, col("l"), col("r"));
    ds.add_derived("ratio".to_string(), &by_zero).unwrap();
    let vals = ds.full_row(&vec![fin(1_000), fin(0)]);
    assert_eq!(vals[4], Sample::PosInf);
}

#[test]
fn filtered_views_and_shared_scan() {
    let mut ds = Dataset::new(names(&["x1", "x2"])).unwrap();
    let both = ds
        .add_view(
            0,
            &vec![
                Filter { column: "x1".to_string(), cmp: Comparator::Neq, constant: fin(SENTINEL) },
                Filter { column: "x2".to_string(), cmp: Comparator::Neq, constant: fin(SENTINEL) },
            ],
        )
        .unwrap();
    let only_x1 = ds
        .add_view(
            0,
            &vec![
                Filter { column: "x1".to_string(), cmp: Comparator::Neq, constant: fin(SENTINEL) },
                Filter { column: "x2".to_string(), cmp: Comparator::Eq, constant: fin(SENTINEL) },
            ],
        )
        .unwrap();
    assert_eq!((both, only_x1), (1, 2));
    let mut reg = Registry::new();
    let spec = BinSpec::new(4, 0, 400).unwrap();
    reg.register_1d(&ds, "x1 both".to_string(), both, &"x1".to_string(), spec).unwrap();
    reg.register_1d(&ds, "x2 both".to_string(), both, &"x2".to_string(), spec).unwrap();
    reg.register_1d(&ds, "x1 only".to_string(), only_x1, &"x1".to_string(), spec).unwrap();
    reg.register_1d(&ds, "x1 all".to_string(), 0, &"x1".to_string(), spec).unwrap();
    assert_eq!(reg.views_to_scan(), vec![1, 2, 0]);
    let rows = vec![
        vec![fin(50), fin(350)],
        vec![fin(150), fin(SENTINEL)],
        vec![fin(250), fin(250)],
        vec![fin(SENTINEL), fin(50)],
    ];
    reg.run(&ds, &rows);
    assert_eq!(counts(&reg, "x1 both"), vec![1, 0, 1, 0]);
    assert_eq!(counts(&reg, "x2 both"), vec![0, 0, 1, 1]);
    assert_eq!(counts(&reg, "x1 only"), vec![0, 1, 0, 0]);
    assert_eq!(counts(&reg, "x1 all"), vec![1, 1, 1, 0]);
}

#[test]
fn child_view_applies_parent_filters() {
    let mut ds = Dataset::new(names(&["e"])).unwrap();
    let positive = ds
        .add_view(0, &vec![Filter { column: "e".to_string(), cmp: Comparator::Gt, constant: fin(0) }])
        .unwrap();
    let small = ds
        .add_view(positive, &vec![Filter { column: "e".to_string(), cmp: Comparator::Lt, constant: fin(3_000) }])
        .unwrap();
    let mut reg = Registry::new();
    reg.register_1d(&ds, "e".to_string(), small, &"e".to_string(), BinSpec::new(8, -4_000, 4_000).unwrap())
        .unwrap();
    let rows = vec![vec![fin(-2_000)], vec![fin(1_000)], vec![fin(2_500)], vec![fin(3_500)], vec![Sample::NaN]];
    reg.run(&ds, &rows);
    assert_eq!(counts(&reg, "e"), vec![0, 0, 0, 0, 0, 1, 1, 0]);
}

#[test]
fn total_counts_equal_passing_in_range_rows() {
    let mut ds = Dataset::new(names(&["v", "flag"])).unwrap();
    let sel = ds
        .add_view(0, &vec![Filter { column: "flag".to_string(), cmp: Comparator::Eq, constant: fin(1_000) }])
        .unwrap();
    let mut reg = Registry::new();
    reg.register_1d(&ds, "v".to_string(), sel, &"v".to_string(), BinSpec::new(5, 0, 5_000).unwrap())
        .unwrap();
    let mut rows = Vec::new();
    let mut expected: u64 = 0;
    for i in 0..40i64 {
        let v = i * 170 - 600;
        let flag = if i % 3 == 0 { 1_000 } else { 0 };
        if flag == 1_000 && (0..5_000).contains(&v) {
            expected += 1;
        }
        rows.push(vec![fin(v), fin(flag)]);
    }
    rows.push(vec![Sample::PosInf, fin(1_000)]);
    reg.run(&ds, &rows);
    let total: u64 = counts(&reg, "v").iter().sum();
    assert_eq!(total, expected);
}

#[test]
fn running_twice_gives_identical_results() {
    let ds = Dataset::new(names(&["x", "y"])).unwrap();
    let mut reg = Registry::new();
    let sx = BinSpec::new(3, 0, 3_000).unwrap();
    let sy = BinSpec::new(2, 0, 2_000).unwrap();
    reg.register_1d(&ds, "x".to_string(), 0, &"x".to_string(), sx).unwrap();
    reg.register_2d(&ds, "y v x".to_string(), 0, &"x".to_string(), &"y".to_string(), sx, sy).unwrap();
    let rows = vec![vec![fin(500), fin(1_500)], vec![fin(2_500), fin(100)], vec![fin(2_600), fin(2_000)]];
    reg.run(&ds, &rows);
    let first = (counts(&reg, "x"), counts(&reg, "y v x"));
    reg.run(&ds, &rows);
    let second = (counts(&reg, "x"), counts(&reg, "y v x"));
    assert_eq!(first, second);
    assert_eq!(first.0, vec![1, 0, 2]);
    assert_eq!(first.1, vec![0, 1, 0, 0, 1, 0]);
}

#[test]
fn same_view_different_columns_do_not_mix() {
    let ds = Dataset::new(names(&["a", "b"])).unwrap();
    let spec = BinSpec::new(2, 0, 2_000).unwrap();
    let rows = vec![vec![fin(100), fin(1_900)], vec![fin(200), fin(1_800)], vec![fin(1_500), fin(5_000)]];
    let mut both = Registry::new();
    both.register_1d(&ds, "a".to_string(), 0, &"a".to_string(), spec).unwrap();
    both.register_1d(&ds, "b".to_string(), 0, &"b".to_string(), spec).unwrap();
    both.run(&ds, &rows);
    let mut alone = Registry::new();
    alone.register_1d(&ds, "a".to_string(), 0, &"a".to_string(), spec).unwrap();
    alone.run(&ds, &rows);
    assert_eq!(counts(&both, "a"), vec![2, 1]);
    assert_eq!(counts(&both, "b"), vec![0, 2]);
    assert_eq!(counts(&both, "a"), counts(&alone, "a"));
}

#[test]
fn two_dimensional_cells_are_row_major_over_x() {
    let ds = Dataset::new(names(&["x", "y"])).unwrap();
    let mut reg = Registry::new();
    let sx = BinSpec::new(2, 0, 2).unwrap();
    let sy = BinSpec::new(3, 0, 3).unwrap();
    reg.register_2d(&ds, "g".to_string(), 0, &"x".to_string(), &"y".to_string(), sx, sy).unwrap();
    let rows = vec![vec![fin(1), fin(2)], vec![fin(0), fin(1)], vec![fin(1), fin(3)], vec![Sample::NaN, fin(0)]];
    reg.run(&ds, &rows);
    assert_eq!(counts(&reg, "g"), vec![0, 1, 0, 0, 0, 1]);
}

#[test]
fn two_dimensional_cell_count_must_fit() {
    let ds = Dataset::new(names(&["x"])).unwrap();
    let mut reg = Registry::new();
    let huge = BinSpec::new(usize::MAX / 2, 0, 10).unwrap();
    let three = BinSpec::new(3, 0, 10).unwrap();
    let r = reg.register_2d(&ds, "g".to_string(), 0, &"x".to_string(), &"x".to_string(), huge, three);
    assert_eq!(r, Err(HistError::InvalidBinSpec));
}

#[test]
fn batches_accumulate_and_failed_views_are_incomplete() {
    let mut ds = Dataset::new(names(&["x"])).unwrap();
    let pos = ds
        .add_view(0, &vec![Filter { column: "x".to_string(), cmp: Comparator::Ge, constant: fin(0) }])
        .unwrap();
    let mut reg = Registry::new();
    let spec = BinSpec::new(2, 0, 2_000).unwrap();
    reg.register_1d(&ds, "all".to_string(), 0, &"x".to_string(), spec).unwrap();
    reg.register_1d(&ds, "pos".to_string(), pos, &"x".to_string(), spec).unwrap();
    reg.begin_view(&ds, 0);
    assert!(reg.has_room(0, 2));
    reg.fill_batch(&ds, 0, &vec![vec![fin(100)], vec![fin(1_100)]]);
    reg.fill_batch(&ds, 0, &vec![vec![fin(200)]]);
    reg.finish_view(&ds, 0, true);
    reg.begin_view(&ds, pos);
    reg.fill_batch(&ds, pos, &vec![vec![fin(-100)], vec![fin(1_100)]]);
    reg.finish_view(&ds, pos, false);
    assert_eq!(counts(&reg, "all"), vec![2, 1]);
    assert_eq!(reg.get(&"all".to_string()).unwrap().status, Status::Complete);
    assert_eq!(counts(&reg, "pos"), vec![0, 1]);
    assert_eq!(reg.get(&"pos".to_string()).unwrap().status, Status::Incomplete);
}

#[test]
fn reset_zeroes_counts_and_keeps_definition() {
    let ds = Dataset::new(names(&["x"])).unwrap();
    let mut reg = Registry::new();
    reg.register_1d(&ds, "x".to_string(), 0, &"x".to_string(), BinSpec::new(2, 0, 2).unwrap()).unwrap();
    reg.run(&ds, &vec![vec![fin(0)], vec![fin(1)]]);
    assert_eq!(counts(&reg, "x"), vec![1, 1]);
    assert!(reg.reset(&ds, &"x".to_string()));
    assert_eq!(counts(&reg, "x"), vec![0, 0]);
    assert_eq!(reg.get(&"x".to_string()).unwrap().status, Status::Pending);
    assert!(!reg.reset(&ds, &"y".to_string()));
    assert_eq!(reg.hists.len(), 1);
}

#[test]
fn full_counters_leave_no_room() {
    let ds = Dataset::new(names(&["x"])).unwrap();
    let mut reg = Registry::new();
    reg.register_1d(&ds, "x".to_string(), 0, &"x".to_string(), BinSpec::new(1, 0, 2).unwrap()).unwrap();
    assert!(reg.has_room(0, usize::MAX));
    reg.fill_batch(&ds, 0, &vec![vec![fin(0)]]);
    assert!(!reg.has_room(0, usize::MAX));
    assert!(reg.has_room(1, usize::MAX));
}

const BATTERY_COLUMNS: [&str; 26] = [
    "DelayFrontRightEnergy", "DelayFrontLeftEnergy", "DelayBackRightEnergy", "DelayBackLeftEnergy",
    "DelayFrontLeftTime", "AnodeFrontTime", "DelayFrontRightTime", "DelayBackLeftTime",
    "DelayBackRightTime", "AnodeBackTime", "ScintLeftTime", "ScintRightTime", "Cebra0Energy",
    "Cebra1Energy", "Cebra2Energy", "Cebra3Energy", "Cebra4Energy", "X1", "X2", "Xavg",
    "ScintLeftEnergy", "AnodeBackEnergy", "AnodeFrontEnergy", "CathodeEnergy", "ScintRightEnergy",
    "Theta",
];

#[test]
fn battery_registers_every_histogram() {
    let (ds, reg) = add_histograms(names(&BATTERY_COLUMNS)).unwrap();
    assert_eq!(reg.hists.len(), 83);
    assert_eq!(ds.columns.len(), 26 + 19);
    assert_eq!(ds.views.len(), 5);
    let x1 = reg.get(&"X1: bothplanes".to_string()).unwrap();
    assert_eq!(x1.view, 1);
    assert_eq!(x1.counts.len(), 600);
    let grid = reg.get(&"ScintTimeDif v Xavg".to_string()).unwrap();
    assert_eq!(grid.counts.len(), 600 * 12800);
}

#[test]
fn battery_needs_its_columns() {
    let mut cols = names(&BATTERY_COLUMNS);
    cols.retain(|c| c != "Theta");
    assert!(matches!(add_histograms(cols), Err(HistError::UnknownColumn)));
    let mut dup = names(&BATTERY_COLUMNS);
    dup.push("X1".to_string());
    assert!(matches!(add_histograms(dup), Err(HistError::DuplicateName)));
}

#[test]
fn battery_fills_plane_views() {
    let (ds, mut reg) = add_histograms(names(&BATTERY_COLUMNS)).unwrap();
    let mut row = vec![fin(SENTINEL); 26];
    row[17] = fin(10_500);
    row[18] = fin(-20_000);
    row[19] = fin(-4_750);
    let mut only_x1 = vec![fin(SENTINEL); 26];
    only_x1[17] = fin(-299_500);
    reg.run(&ds, &vec![row, only_x1]);
    let both = counts(&reg, "X1: bothplanes");
    assert_eq!(both.iter().sum::<u64>(), 1);
    assert_eq!(both[310], 1);
    let one = counts(&reg, "X1: only1plane");
    assert_eq!(one[0], 1);
    assert_eq!(one.iter().sum::<u64>(), 1);
    assert_eq!(counts(&reg, "X1").iter().sum::<u64>(), 2);
}

#[test]
fn empty_snapshot_gives_zero_counts() {
    let ds = Dataset::new(names(&["x"])).unwrap();
    let mut reg = Registry::new();
    reg.register_1d(&ds, "x".to_string(), 0, &"x".to_string(), BinSpec::new(4, 0, 4).unwrap()).unwrap();
    reg.run(&ds, &vec![vec![fin(1)]]);
    reg.run(&ds, &Vec::new());
    assert_eq!(counts(&reg, "x"), vec![0, 0, 0, 0]);
    assert_eq!(reg.get(&"x".to_string()).unwrap().status, Status::Complete);
}

#[test]
fn empty_registry_has_nothing_to_scan() {
    let reg = Registry::new();
    assert!(reg.views_to_scan().is_empty());
    assert!(Dataset::new(Vec::new()).unwrap().columns.is_empty());
}

#[test]
fn battery_definitions_read_back() {
    let (ds, reg) = add_histograms(names(&BATTERY_COLUMNS)).unwrap();
    let pos = |n: &str| ds.columns.iter().position(|c| c == n).unwrap();
    let g = reg.get(&"X2 v X1".to_string()).unwrap();
    assert_eq!(g.view, 0);
    match g.axes {
        Axes::Two { column_x, column_y, spec_x, spec_y } => {
            assert_eq!((column_x, column_y), (pos("X1"), pos("X2")));
            assert_eq!(spec_x, BinSpec { bin_count: 600, low: -300_000, high: 300_000 });
            assert_eq!(spec_y, spec_x);
        }
        _ => panic!("two-dimensional histogram expected"),
    }
    assert_eq!(
        ds.views[1].filters,
        vec![
            Predicate { column: pos("X1"), cmp: Comparator::Neq, constant: fin(SENTINEL) },
            Predicate { column: pos("X2"), cmp: Comparator::Neq, constant: fin(SENTINEL) },
        ]
    );
    let k = pos("DelayFrontLeftTime_AnodeFrontTime") - ds.n_base;
    match &ds.derived[k] {
        Formula::Binary(BinOp::Sub, a, b) => {
            assert!(matches!(**a, Formula::Column(c) if c == pos("DelayFrontLeftTime")));
            assert!(matches!(**b, Formula::Column(c) if c == pos("AnodeFrontTime")));
        }
        _ => panic!("difference expected"),
    }
    let ones = reg.hists.iter().filter(|h| matches!(h.axes, Axes::One { .. })).count();
    assert_eq!((ones, reg.hists.len() - ones), (41, 42));
}
