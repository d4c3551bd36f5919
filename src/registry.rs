//! The histogram registry and the scheduler that fills it: definitions bound
//! to a view and one or two columns, their count arrays, and the passes over
//! the rows of each view.
use vstd::prelude::*;
use crate::bins::{map_pair, map_pair_spec, map_spec, map_value, BinSpec};
use crate::dataset::Dataset;
use crate::error::HistError;
use crate::expr::column_index;
use crate::sample::Sample;

verus! {

/// What a histogram bins: one column, or a pair of columns. A two-dimensional
/// histogram stores its cells row-major over the x axis: cell `(i, j)` is
/// `counts[i * spec_y.bin_count + j]`.
#[derive(Clone, Copy, Debug, PartialEq, Eq, Structural)]
pub enum Axes {
    One { column: usize, spec: BinSpec },
    Two { column_x: usize, column_y: usize, spec_x: BinSpec, spec_y: BinSpec },
}

/// Where a histogram stands in the current run.
#[derive(Clone, Copy, Debug, PartialEq, Eq, Structural)]
pub enum Status {
    /// Not yet filled, or being filled: counts are not ready.
    Pending,
    /// Filled by a complete pass over its view.
    Complete,
    /// Its view's pass was aborted by a provider failure: counts are not ready.
    Incomplete,
}

/// A named histogram definition together with its counts.
#[derive(Debug)]
pub struct Histogram {
    pub name: String,
    pub view: usize,
    pub axes: Axes,
    pub counts: Vec<u64>,
    pub status: Status,
}

/// The named store of histograms, in registration order.
#[derive(Debug)]
pub struct Registry {
    pub hists: Vec<Histogram>,
}

/// Number of cells of a binning.
pub open spec fn n_cells(axes: Axes) -> int {
    match axes {
        Axes::One { spec, .. } => spec.bin_count as int,
        Axes::Two { spec_x, spec_y, .. } => spec_x.bin_count * spec_y.bin_count,
    }
}

pub open spec fn axes_valid(axes: Axes, n_columns: int) -> bool {
    match axes {
        Axes::One { column, spec } => column < n_columns && spec.wf(),
        Axes::Two { column_x, column_y, spec_x, spec_y } => {
            &&& column_x < n_columns
            &&& column_y < n_columns
            &&& spec_x.wf()
            &&& spec_y.wf()
        },
    }
}

/// The cell that a row's column values fall in, if any.
pub open spec fn cell_spec(axes: Axes, vals: Seq<Sample>) -> Option<int> {
    match axes {
        Axes::One { column, spec } => map_spec(vals[column as int], spec),
        Axes::Two { column_x, column_y, spec_x, spec_y } => match map_pair_spec(
            vals[column_x as int],
            vals[column_y as int],
            spec_x,
            spec_y,
        ) {
            Some((i, j)) => Some(i * spec_y.bin_count + j),
            None => None,
        },
    }
}

/// The cell that a provider row adds to, for a histogram on view `view`:
/// none if the row fails the view's filters or its value(s) map to no bin.
pub open spec fn row_cell(ds: Dataset, view: int, axes: Axes, row: Seq<Sample>) -> Option<int> {
    if ds.row_in_view(view, row) {
        cell_spec(axes, ds.row_values(row))
    } else {
        None
    }
}

/// Number of rows of `rows` that add to cell `c`.
pub open spec fn count_cell(ds: Dataset, view: int, axes: Axes, rows: Seq<Seq<Sample>>, c: int) -> nat
    decreases rows.len(),
{
    if rows.len() == 0 {
        0
    } else {
        count_cell(ds, view, axes, rows.drop_last(), c) + if row_cell(
            ds,
            view,
            axes,
            rows.last(),
        ) == Some(c) {
            1nat
        } else {
            0nat
        }
    }
}

/// The counts that one pass over `rows` gives a histogram on `view` with `axes`.
pub open spec fn expected_counts(ds: Dataset, view: int, axes: Axes, rows: Seq<Seq<Sample>>) -> Seq<
    int,
> {
    Seq::new(n_cells(axes) as nat, |c: int| count_cell(ds, view, axes, rows, c) as int)
}

pub open spec fn counts_view(v: Seq<u64>) -> Seq<int> {
    v.map_values(|x: u64| x as int)
}

pub open spec fn rows_fit(ds: Dataset, rows: Seq<Seq<Sample>>) -> bool {
    forall|r: int| 0 <= r < rows.len() ==> #[trigger] rows[r].len() == ds.n_base
}

pub proof fn lemma_count_cell_bound(
    ds: Dataset,
    view: int,
    axes: Axes,
    rows: Seq<Seq<Sample>>,
    c: int,
)
    ensures
        count_cell(ds, view, axes, rows, c) <= rows.len(),
    decreases rows.len(),
{
    if rows.len() > 0 {
        lemma_count_cell_bound(ds, view, axes, rows.drop_last(), c);
    }
}

pub(crate) proof fn lemma_cell_in_range(axes: Axes, vals: Seq<Sample>, n_columns: int)
    requires
        axes_valid(axes, n_columns),
        vals.len() == n_columns,
        cell_spec(axes, vals) is Some,
    ensures
        0 <= cell_spec(axes, vals)->0 < n_cells(axes),
{
    match axes {
        Axes::One { column, spec } => {
            crate::bins::lemma_bin_in_range(vals[column as int]->Finite_0 as int, spec);
        },
        Axes::Two { column_x, column_y, spec_x, spec_y } => {
            let x = vals[column_x as int];
            let y = vals[column_y as int];
            crate::bins::lemma_bin_in_range(x->Finite_0 as int, spec_x);
            crate::bins::lemma_bin_in_range(y->Finite_0 as int, spec_y);
            let i = map_spec(x, spec_x)->0;
            let j = map_spec(y, spec_y)->0;
            let nx = spec_x.bin_count as int;
            let ny = spec_y.bin_count as int;
            assert(0 <= i * ny + j < nx * ny) by (nonlinear_arith)
                requires
                    0 <= i < nx,
                    0 <= j < ny,
            ;
        },
    }
}

impl Histogram {
    pub open spec fn valid_for(&self, ds: &Dataset) -> bool {
        &&& self.view < ds.views@.len()
        &&& axes_valid(self.axes, ds.n_columns())
        &&& self.counts@.len() == n_cells(self.axes)
    }

    /// The cell that row values `vals` add to.
    pub(crate) fn cell(&self, vals: &Vec<Sample>) -> (r: Option<usize>)
        requires
            axes_valid(self.axes, vals@.len() as int),
            self.counts@.len() == n_cells(self.axes),
        ensures
            match cell_spec(self.axes, vals@) {
                Some(c) => r == Some(c as usize) && 0 <= c < self.counts@.len() && c <= usize::MAX,
                None => r is None,
            },
    {
        let n_cells_all = self.counts.len();
        proof {
            if cell_spec(self.axes, vals@) is Some {
                lemma_cell_in_range(self.axes, vals@, vals@.len() as int);
            }
        }
        match self.axes {
            Axes::One { column, spec } => map_value(vals[column], &spec),
            Axes::Two { column_x, column_y, spec_x, spec_y } => {
                match map_pair(vals[column_x], vals[column_y], &spec_x, &spec_y) {
                    Some((i, j)) => {
                        let n_cells_here = self.counts.len();
                        proof {
                            let nx = spec_x.bin_count as int;
                            let ny = spec_y.bin_count as int;
                            assert(0 <= i * ny + j < nx * ny && 0 <= i * ny <= nx * ny)
                                by (nonlinear_arith)
                                requires
                                    0 <= i < nx,
                                    0 <= j < ny,
                            ;
                            assert(nx * ny == n_cells_here);
                        }
                        Some(i * spec_y.bin_count + j)
                    },
                    None => None,
                }
            },
        }
    }
}

pub(crate) fn zeros(n: usize) -> (r: Vec<u64>)
    ensures
        r@.len() == n,
        forall|c: int| 0 <= c < n ==> r@[c] == 0,
{
    let mut v: Vec<u64> = Vec::new();
    while v.len() < n
        invariant
            v@.len() <= n,
            forall|c: int| 0 <= c < v@.len() ==> v@[c] == 0,
        decreases n - v@.len(),
    {
        v.push(0);
    }
    v
}

pub open spec fn rows_view(rows: Seq<Vec<Sample>>) -> Seq<Seq<Sample>> {
    rows.map_values(|r: Vec<Sample>| r@)
}

impl Registry {
    pub open spec fn names(&self) -> Seq<Seq<char>> {
        self.hists@.map_values(|h: Histogram| h.name@)
    }

    /// Every histogram refers to a view and columns of `ds`, and names are unique.
    pub open spec fn valid_for(&self, ds: &Dataset) -> bool {
        &&& forall|i: int| 0 <= i < self.hists@.len() ==> #[trigger] self.hists@[i].valid_for(ds)
        &&& crate::dataset::distinct(self.names())
    }

    /// The definitions (name, view, axes) of the histograms, in registration order.
    pub open spec fn defs(&self) -> Seq<(Seq<char>, usize, Axes)> {
        self.hists@.map_values(|h: Histogram| (h.name@, h.view, h.axes))
    }

    /// An empty registry.
    pub fn new() -> (r: Registry)
        ensures
            r.hists@.len() == 0,
    {
        Registry { hists: Vec::new() }
    }

    /// Position of the histogram called `name`.
    pub fn find(&self, name: &String) -> (r: Option<usize>)
        ensures
            r matches Some(i) ==> self.names().index_of_first(name@) == Some(i as int),
            r is None ==> self.names().index_of_first(name@) is None,
    {
        let ghost ns = self.names();
        proof {
            ns.index_of_first_ensures(name@);
        }
        let mut i: usize = 0;
        while i < self.hists.len()
            invariant
                ns == self.names(),
                i <= self.hists@.len(),
                forall|j: int| 0 <= j < i ==> ns[j] != name@,
            decreases self.hists.len() - i,
        {
            proof {
                assert(ns[i as int] == self.hists@[i as int].name@);
            }
            if self.hists[i].name == *name {
                proof {
                    assert(ns.contains(name@));
                    ns.index_of_first_ensures(name@);
                }
                return Some(i);
            }
            i += 1;
        }
        proof {
            assert(!ns.contains(name@));
        }
        None
    }

    /// The histogram called `name`, if one is registered.
    pub fn get(&self, name: &String) -> (r: Option<&Histogram>)
        ensures
            match self.names().index_of_first(name@) {
                Some(i) => r == Some(&self.hists@[i]),
                None => r is None,
            },
    {
        match self.find(name) {
            Some(i) => {
                proof {
                    self.names().index_of_first_ensures(name@);
                }
                Some(&self.hists[i])
            },
            None => None,
        }
    }

    fn insert(&mut self, ds: &Dataset, name: String, view: usize, axes: Axes, n: usize)
        requires
            old(self).valid_for(ds),
            !old(self).names().contains(name@),
            view < ds.views@.len(),
            axes_valid(axes, ds.n_columns()),
            n == n_cells(axes),
        ensures
            final(self).valid_for(ds),
            final(self).hists@.len() == old(self).hists@.len() + 1,
            final(self).hists@.take(old(self).hists@.len() as int) == old(self).hists@,
            final(self).hists@.last().name == name,
            final(self).hists@.last().view == view,
            final(self).hists@.last().axes == axes,
            final(self).hists@.last().status == Status::Pending,
            counts_view(final(self).hists@.last().counts@) == Seq::new(n as nat, |c: int| 0int),
    {
        let counts = zeros(n);
        let ghost old_names = self.names();
        self.hists.push(Histogram { name, view, axes, counts, status: Status::Pending });
        proof {
            assert(self.hists@.take(old(self).hists@.len() as int) == old(self).hists@);
            assert(self.names() == old_names.push(name@));
            assert forall|i: int| 0 <= i < self.hists@.len() implies #[trigger] self.hists@[
                i
            ].valid_for(ds) by {
                if i < old(self).hists@.len() {
                    assert(self.hists@[i] == old(self).hists@[i]);
                }
            }
            assert(counts_view(self.hists@.last().counts@) =~= Seq::new(n as nat, |c: int| 0int));
        }
    }

    /// Registers a one-dimensional histogram of `column` over view `view`.
    /// The binning is checked first, then the name, the view and the column.
    pub fn register_1d(
        &mut self,
        ds: &Dataset,
        name: String,
        view: usize,
        column: &String,
        spec: BinSpec,
    ) -> (r: Result<(), HistError>)
        requires
            ds.wf(),
            old(self).valid_for(ds),
        ensures
            final(self).valid_for(ds),
            !spec.wf() ==> r == Err::<(), HistError>(HistError::InvalidBinSpec),
            spec.wf() && old(self).names().contains(name@) ==> r == Err::<(), HistError>(
                HistError::DuplicateName,
            ),
            spec.wf() && !old(self).names().contains(name@) && view >= ds.views@.len() ==> r
                == Err::<(), HistError>(HistError::UnknownView),
            spec.wf() && !old(self).names().contains(name@) && view < ds.views@.len()
                && ds.names().index_of_first(column@) is None ==> r == Err::<(), HistError>(
                HistError::UnknownColumn,
            ),
            r is Ok <==> spec.wf() && !old(self).names().contains(name@) && view < ds.views@.len()
                && ds.names().index_of_first(column@) is Some,
            r is Err ==> *final(self) == *old(self),
            r is Ok ==> {
                &&& spec.wf()
                &&& !old(self).names().contains(name@)
                &&& view < ds.views@.len()
                &&& ds.names().index_of_first(column@) is Some
                &&& final(self).hists@.len() == old(self).hists@.len() + 1
                &&& final(self).hists@.take(old(self).hists@.len() as int) == old(self).hists@
                &&& final(self).hists@.last().name == name
                &&& final(self).hists@.last().view == view
                &&& final(self).hists@.last().axes == Axes::One {
                    column: ds.names().index_of_first(column@)->0 as usize,
                    spec,
                }
                &&& final(self).hists@.last().status == Status::Pending
                &&& counts_view(final(self).hists@.last().counts@) == Seq::new(
                    spec.bin_count as nat,
                    |c: int| 0int,
                )
            },
    {
        if !(spec.bin_count > 0 && spec.low < spec.high) {
            return Err(HistError::InvalidBinSpec);
        }
        if let Some(_) = self.find(&name) {
            proof {
                self.names().index_of_first_ensures(name@);
            }
            return Err(HistError::DuplicateName);
        }
        proof {
            self.names().index_of_first_ensures(name@);
        }
        if view >= ds.views.len() {
            return Err(HistError::UnknownView);
        }
        match column_index(&ds.columns, column) {
            None => Err(HistError::UnknownColumn),
            Some(c) => {
                proof {
                    ds.names().index_of_first_ensures(column@);
                }
                let axes = Axes::One { column: c, spec };
                self.insert(ds, name, view, axes, spec.bin_count);
                Ok(())
            },
        }
    }

    /// Registers a two-dimensional histogram of `column_x` against `column_y`
    /// over view `view`. The binnings are checked first (each must be valid and
    /// the number of cells must fit in `usize`), then the name, the view and
    /// the columns.
    pub fn register_2d(
        &mut self,
        ds: &Dataset,
        name: String,
        view: usize,
        column_x: &String,
        column_y: &String,
        spec_x: BinSpec,
        spec_y: BinSpec,
    ) -> (r: Result<(), HistError>)
        requires
            ds.wf(),
            old(self).valid_for(ds),
        ensures
            final(self).valid_for(ds),
            !(spec_x.wf() && spec_y.wf() && spec_x.bin_count * spec_y.bin_count <= usize::MAX)
                ==> r == Err::<(), HistError>(HistError::InvalidBinSpec),
            spec_x.wf() && spec_y.wf() && spec_x.bin_count * spec_y.bin_count <= usize::MAX
                && old(self).names().contains(name@) ==> r == Err::<(), HistError>(
                HistError::DuplicateName,
            ),
            spec_x.wf() && spec_y.wf() && spec_x.bin_count * spec_y.bin_count <= usize::MAX
                && !old(self).names().contains(name@) && view >= ds.views@.len() ==> r == Err::<
                (),
                HistError,
            >(HistError::UnknownView),
            spec_x.wf() && spec_y.wf() && spec_x.bin_count * spec_y.bin_count <= usize::MAX
                && !old(self).names().contains(name@) && view < ds.views@.len() && (
            ds.names().index_of_first(column_x@) is None || ds.names().index_of_first(column_y@)
                is None) ==> r == Err::<(), HistError>(HistError::UnknownColumn),
            r is Ok <==> spec_x.wf() && spec_y.wf() && spec_x.bin_count * spec_y.bin_count
                <= usize::MAX && !old(self).names().contains(name@) && view < ds.views@.len()
                && ds.names().index_of_first(column_x@) is Some && ds.names().index_of_first(
                column_y@,
            ) is Some,
            r is Err ==> *final(self) == *old(self),
            r is Ok ==> {
                &&& spec_x.wf() && spec_y.wf()
                &&& !old(self).names().contains(name@)
                &&& view < ds.views@.len()
                &&& ds.names().index_of_first(column_x@) is Some
                &&& ds.names().index_of_first(column_y@) is Some
                &&& final(self).hists@.len() == old(self).hists@.len() + 1
                &&& final(self).hists@.take(old(self).hists@.len() as int) == old(self).hists@
                &&& final(self).hists@.last().name == name
                &&& final(self).hists@.last().view == view
                &&& final(self).hists@.last().axes == Axes::Two {
                    column_x: ds.names().index_of_first(column_x@)->0 as usize,
                    column_y: ds.names().index_of_first(column_y@)->0 as usize,
                    spec_x,
                    spec_y,
                }
                &&& final(self).hists@.last().status == Status::Pending
                &&& counts_view(final(self).hists@.last().counts@) == Seq::new(
                    (spec_x.bin_count * spec_y.bin_count) as nat,
                    |c: int| 0int,
                )
            },
    {
        if !(spec_x.bin_count > 0 && spec_x.low < spec_x.high && spec_y.bin_count > 0
            && spec_y.low < spec_y.high) {
            return Err(HistError::InvalidBinSpec);
        }
        if spec_x.bin_count > usize::MAX / spec_y.bin_count {
            proof {
                let nx = spec_x.bin_count as int;
                let ny = spec_y.bin_count as int;
                let m = usize::MAX as int;
                assert(nx * ny > m) by (nonlinear_arith)
                    requires
                        nx > m / ny,
                        ny > 0,
                ;
            }
            return Err(HistError::InvalidBinSpec);
        }
        proof {
            let nx = spec_x.bin_count as int;
            let ny = spec_y.bin_count as int;
            let m = usize::MAX as int;
            assert(nx * ny <= m) by (nonlinear_arith)
                requires
                    nx <= m / ny,
                    ny > 0,
            ;
        }
        let n: usize = spec_x.bin_count * spec_y.bin_count;
        if let Some(_) = self.find(&name) {
            proof {
                self.names().index_of_first_ensures(name@);
            }
            return Err(HistError::DuplicateName);
        }
        proof {
            self.names().index_of_first_ensures(name@);
        }
        if view >= ds.views.len() {
            return Err(HistError::UnknownView);
        }
        let cx = column_index(&ds.columns, column_x);
        let cy = column_index(&ds.columns, column_y);
        match (cx, cy) {
            (Some(i), Some(j)) => {
                proof {
                    ds.names().index_of_first_ensures(column_x@);
                    ds.names().index_of_first_ensures(column_y@);
                }
                let axes = Axes::Two { column_x: i, column_y: j, spec_x, spec_y };
                self.insert(ds, name, view, axes, n);
                Ok(())
            },
            _ => Err(HistError::UnknownColumn),
        }
    }
}

} // verus!
