//! The execution scheduler: groups histograms by view and fills all the
//! histograms of a view in one pass over the rows.
use vstd::prelude::*;
use crate::dataset::{lemma_extend_len, Dataset};
use crate::registry::{
    count_cell, counts_view, expected_counts, row_cell, rows_fit, rows_view, zeros, Axes, Histogram,
    Registry, Status,
};
use crate::bins::{map_spec, BinSpec};
use crate::sample::Sample;

verus! {

/// The counts of every histogram that one run over `rows` gives, in registration order.
pub open spec fn run_result(ds: Dataset, reg: Registry, rows: Seq<Seq<Sample>>) -> Seq<Seq<int>> {
    reg.hists@.map_values(|h: Histogram| expected_counts(ds, h.view as int, h.axes, rows))
}

proof fn lemma_count_step(ds: Dataset, view: int, axes: Axes, rows: Seq<Seq<Sample>>, r: int)
    requires
        0 <= r < rows.len(),
    ensures
        forall|c: int|
            count_cell(ds, view, axes, rows.take(r + 1), c) == count_cell(
                ds,
                view,
                axes,
                rows.take(r),
                c,
            ) + if row_cell(ds, view, axes, rows[r]) == Some(c) {
                1int
            } else {
                0int
            },
{
    assert(rows.take(r + 1).drop_last() == rows.take(r));
    assert(rows.take(r + 1).last() == rows[r]);
}

/// Some histogram among the first `n` is bound to view `v`.
pub open spec fn used_before(hists: Seq<Histogram>, n: int, v: usize) -> bool {
    exists|j: int| 0 <= j < n && hists[j].view == v
}

fn contains_view(r: &Vec<usize>, v: usize) -> (b: bool)
    ensures
        b == r@.contains(v),
{
    let mut k: usize = 0;
    while k < r.len()
        invariant
            k <= r@.len(),
            forall|m: int| 0 <= m < k ==> r@[m] != v,
        decreases r.len() - k,
    {
        if r[k] == v {
            return true;
        }
        k += 1;
    }
    false
}

impl Registry {
    pub open spec fn results(&self) -> Seq<Seq<int>> {
        self.hists@.map_values(|h: Histogram| counts_view(h.counts@))
    }

    /// Every count of a histogram on `view` can take `n` more rows.
    pub open spec fn room_for(&self, view: usize, n: int) -> bool {
        forall|i: int, c: int|
            0 <= i < self.hists@.len() && self.hists@[i].view == view && 0 <= c
                < self.hists@[i].counts@.len() ==> self.hists@[i].counts@[c] + n <= u64::MAX
    }

    /// The histograms keep their definitions and statuses; only counts may change.
    pub open spec fn same_but_counts(&self, other: &Registry) -> bool {
        &&& self.hists@.len() == other.hists@.len()
        &&& forall|i: int|
            0 <= i < self.hists@.len() ==> #[trigger] other.hists@[i].name == self.hists@[i].name
        &&& forall|i: int|
            0 <= i < self.hists@.len() ==> #[trigger] other.hists@[i].view == self.hists@[i].view
        &&& forall|i: int|
            0 <= i < self.hists@.len() ==> #[trigger] other.hists@[i].axes == self.hists@[i].axes
        &&& forall|i: int|
            0 <= i < self.hists@.len() ==> #[trigger] other.hists@[i].counts@.len()
                == self.hists@[i].counts@.len()
    }

    /// Zeroes the counts of the histogram called `name` and marks it pending;
    /// its definition stays. Returns whether such a histogram exists.
    pub fn reset(&mut self, ds: &Dataset, name: &String) -> (r: bool)
        requires
            old(self).valid_for(ds),
        ensures
            final(self).valid_for(ds),
            old(self).same_but_counts(final(self)),
            r == old(self).names().index_of_first(name@) is Some,
            forall|i: int|
                0 <= i < old(self).hists@.len() ==> if old(self).names().index_of_first(name@)
                    == Some(i) {
                    &&& counts_view(final(self).hists@[i].counts@) == Seq::new(
                        old(self).hists@[i].counts@.len(),
                        |c: int| 0int,
                    )
                    &&& final(self).hists@[i].status == Status::Pending
                } else {
                    final(self).hists@[i] == old(self).hists@[i]
                },
    {
        match self.find(name) {
            None => false,
            Some(i) => {
                proof {
                    self.names().index_of_first_ensures(name@);
                }
                let n = self.hists[i].counts.len();
                self.hists[i].counts = zeros(n);
                self.hists[i].status = Status::Pending;
                proof {
                    assert(counts_view(self.hists@[i as int].counts@) =~= Seq::new(
                        n as nat,
                        |c: int| 0int,
                    ));
                    assert(self.names() == old(self).names());
                    assert forall|j: int| 0 <= j < self.hists@.len() implies #[trigger] self.hists@[
                        j
                    ].valid_for(ds) by {
                        assert(old(self).hists@[j].valid_for(ds));
                    }
                }
                true
            },
        }
    }

    /// The distinct views that the registered histograms are bound to, each
    /// once, and no others. One pass is made per view.
    pub fn views_to_scan(&self) -> (r: Vec<usize>)
        ensures
            r@.no_duplicates(),
            forall|i: int| 0 <= i < self.hists@.len() ==> r@.contains(#[trigger] self.hists@[i].view),
            forall|k: int| 0 <= k < r@.len() ==> used_before(self.hists@, self.hists@.len() as int, #[trigger] r@[k]),
    {
        let mut r: Vec<usize> = Vec::new();
        let mut i: usize = 0;
        while i < self.hists.len()
            invariant
                i <= self.hists@.len(),
                r@.no_duplicates(),
                forall|j: int| 0 <= j < i ==> r@.contains(#[trigger] self.hists@[j].view),
                forall|k: int| 0 <= k < r@.len() ==> used_before(self.hists@, i as int, #[trigger] r@[k]),
            decreases self.hists.len() - i,
        {
            let v = self.hists[i].view;
            let seen = contains_view(&r, v);
            if !seen {
                proof {
                    assert(!r@.contains(v));
                }
                let ghost prev = r@;
                r.push(v);
                proof {
                    assert(r@.last() == v);
                    assert forall|k2: int| 0 <= k2 < r@.len() implies used_before(self.hists@, i + 1, #[trigger] r@[k2]) by {
                        if k2 == r@.len() - 1 {
                            assert(self.hists@[i as int].view == r@[k2]);
                        } else {
                            assert(r@[k2] == prev[k2]);
                            assert(used_before(self.hists@, i as int, prev[k2]));
                        }
                    }
                    assert forall|j: int| 0 <= j < i implies r@.contains(
                        #[trigger] self.hists@[j].view,
                    ) by {
                        assert(prev.contains(self.hists@[j].view));
                        let m = choose|m: int| 0 <= m < prev.len() && prev[m] == self.hists@[j].view;
                        assert(r@[m] == prev[m]);
                    }
                }
            }
            proof {
                assert(r@.contains(self.hists@[i as int].view));
            }
            i += 1;
        }
        proof {
            assert forall|j: int| 0 <= j < self.hists@.len() implies r@.contains(
                #[trigger] self.hists@[j].view,
            ) by {
                assert(j < i);
            }
        }
        r
    }

    /// Sets the status of every histogram on `view`.
    fn set_status(&mut self, ds: &Dataset, view: usize, st: Status)
        requires
            old(self).valid_for(ds),
        ensures
            final(self).valid_for(ds),
            old(self).same_but_counts(final(self)),
            forall|i: int|
                0 <= i < old(self).hists@.len() ==> #[trigger] final(self).hists@[i].counts
                    == old(self).hists@[i].counts,
            forall|i: int|
                0 <= i < old(self).hists@.len() ==> #[trigger] final(self).hists@[i].status == if old(
                    self,
                ).hists@[i].view == view {
                    st
                } else {
                    old(self).hists@[i].status
                },
    {
        let mut i: usize = 0;
        while i < self.hists.len()
            invariant
                i <= self.hists@.len(),
                old(self).same_but_counts(self),
                forall|j: int|
                    0 <= j < self.hists@.len() ==> #[trigger] self.hists@[j].counts == old(
                        self,
                    ).hists@[j].counts,
                forall|j: int|
                    0 <= j < self.hists@.len() ==> #[trigger] self.hists@[j].status == if j < i
                        && old(self).hists@[j].view == view {
                        st
                    } else {
                        old(self).hists@[j].status
                    },
            decreases self.hists.len() - i,
        {
            let ghost prev = self.hists@;
            if self.hists[i].view == view {
                self.hists[i].status = st;
                proof {
                    assert forall|j: int| 0 <= j < prev.len() && j != i implies self.hists@[j]
                        == prev[j] by {}
                    assert(self.hists@[i as int].counts == prev[i as int].counts);
                }
            }
            i += 1;
        }
        proof {
            self.lemma_valid_kept(old(self), ds);
        }
    }

    proof fn lemma_valid_kept(&self, before: &Registry, ds: &Dataset)
        requires
            before.valid_for(ds),
            before.same_but_counts(self),
        ensures
            self.valid_for(ds),
    {
        assert(self.names() =~= before.names()) by {
            assert forall|j: int| 0 <= j < self.hists@.len() implies self.names()[j]
                == before.names()[j] by {
                assert(before.hists@[j].name == self.hists@[j].name);
            }
        }
        assert forall|j: int| 0 <= j < self.hists@.len() implies #[trigger] self.hists@[
            j
        ].valid_for(ds) by {
            assert(before.hists@[j].valid_for(ds));
            assert(before.hists@[j].name == self.hists@[j].name);
        }
    }

    /// Starts the pass over `view`: zeroes the counts of its histograms and
    /// marks them pending. Other histograms are untouched.
    pub fn begin_view(&mut self, ds: &Dataset, view: usize)
        requires
            old(self).valid_for(ds),
        ensures
            final(self).valid_for(ds),
            old(self).same_but_counts(final(self)),
            forall|i: int|
                #![trigger final(self).hists@[i]]
                0 <= i < old(self).hists@.len() ==> if old(self).hists@[i].view == view {
                    &&& counts_view(final(self).hists@[i].counts@) == Seq::new(
                        old(self).hists@[i].counts@.len(),
                        |c: int| 0int,
                    )
                    &&& final(self).hists@[i].status == Status::Pending
                } else {
                    &&& final(self).hists@[i].counts == old(self).hists@[i].counts
                    &&& final(self).hists@[i].status == old(self).hists@[i].status
                },
    {
        let mut i: usize = 0;
        while i < self.hists.len()
            invariant
                i <= self.hists@.len(),
                old(self).same_but_counts(self),
                forall|j: int|
                    #![trigger self.hists@[j]]
                    0 <= j < self.hists@.len() ==> if j < i && old(self).hists@[j].view == view {
                        &&& counts_view(self.hists@[j].counts@) == Seq::new(
                            old(self).hists@[j].counts@.len(),
                            |c: int| 0int,
                        )
                        &&& self.hists@[j].status == Status::Pending
                    } else {
                        &&& self.hists@[j].counts == old(self).hists@[j].counts
                        &&& self.hists@[j].status == old(self).hists@[j].status
                    },
            decreases self.hists.len() - i,
        {
            let ghost prev = self.hists@;
            if self.hists[i].view == view {
                let n = self.hists[i].counts.len();
                self.hists[i].counts = zeros(n);
                self.hists[i].status = Status::Pending;
                proof {
                    assert(counts_view(self.hists@[i as int].counts@) =~= Seq::new(
                        n as nat,
                        |c: int| 0int,
                    ));
                    assert forall|j: int| 0 <= j < prev.len() && j != i implies self.hists@[j]
                        == prev[j] by {}
                }
            }
            i += 1;
        }
        proof {
            self.lemma_valid_kept(old(self), ds);
        }
    }

    /// Ends the pass over `view`: its histograms become complete when the
    /// provider delivered every batch (`ok`), incomplete otherwise.
    pub fn finish_view(&mut self, ds: &Dataset, view: usize, ok: bool)
        requires
            old(self).valid_for(ds),
        ensures
            final(self).valid_for(ds),
            old(self).same_but_counts(final(self)),
            forall|i: int|
                0 <= i < old(self).hists@.len() ==> #[trigger] final(self).hists@[i].counts
                    == old(self).hists@[i].counts,
            forall|i: int|
                0 <= i < old(self).hists@.len() ==> #[trigger] final(self).hists@[i].status == if old(
                    self,
                ).hists@[i].view == view {
                    if ok {
                        Status::Complete
                    } else {
                        Status::Incomplete
                    }
                } else {
                    old(self).hists@[i].status
                },
    {
        let st = if ok {
            Status::Complete
        } else {
            Status::Incomplete
        };
        self.set_status(ds, view, st);
    }

    /// Adds the rows of one batch of `view`'s scan to every histogram on
    /// `view`. Each row is extended with its derived columns and run through
    /// the view's filters once; rows that pass add one to the cell of each
    /// histogram whose value(s) map to a bin.
    pub fn fill_batch(&mut self, ds: &Dataset, view: usize, rows: &Vec<Vec<Sample>>)
        requires
            ds.wf(),
            old(self).valid_for(ds),
            view < ds.views@.len(),
            rows_fit(*ds, rows_view(rows@)),
            old(self).room_for(view, rows@.len() as int),
        ensures
            final(self).valid_for(ds),
            old(self).same_but_counts(final(self)),
            forall|i: int|
                0 <= i < old(self).hists@.len() ==> #[trigger] final(self).hists@[i].status == old(
                    self,
                ).hists@[i].status,
            forall|i: int|
                #![trigger final(self).hists@[i]]
                0 <= i < old(self).hists@.len() ==> if old(self).hists@[i].view == view {
                    counts_view(final(self).hists@[i].counts@) == Seq::new(
                        old(self).hists@[i].counts@.len(),
                        |c: int|
                            old(self).hists@[i].counts@[c] + count_cell(
                                *ds,
                                view as int,
                                old(self).hists@[i].axes,
                                rows_view(rows@),
                                c,
                            ),
                    )
                } else {
                    final(self).hists@[i].counts == old(self).hists@[i].counts
                },
    {
        let ghost rv = rows_view(rows@);
        let ghost oh = old(self).hists@;
        let mut r: usize = 0;
        while r < rows.len()
            invariant
                ds.wf(),
                view < ds.views@.len(),
                rv == rows_view(rows@),
                rows_fit(*ds, rv),
                oh == old(self).hists@,
                old(self).room_for(view, rows@.len() as int),
                old(self).valid_for(ds),
                r <= rows@.len(),
                old(self).same_but_counts(self),
                forall|i: int|
                    0 <= i < oh.len() ==> #[trigger] self.hists@[i].status == oh[i].status,
                forall|i: int|
                    0 <= i < oh.len() && oh[i].view != view ==> #[trigger] self.hists@[i].counts
                        == oh[i].counts,
                forall|i: int, c: int|
                    0 <= i < oh.len() && oh[i].view == view && 0 <= c < oh[i].counts@.len()
                        ==> #[trigger] self.hists@[i].counts@[c] == oh[i].counts@[c] + count_cell(
                        *ds,
                        view as int,
                        oh[i].axes,
                        rv.take(r as int),
                        c,
                    ),
            decreases rows.len() - r,
        {
            assert(rv[r as int] == rows@[r as int]@);
            let vals = ds.full_row(&rows[r]);
            let pass = ds.passes(view, &vals);
            let mut i: usize = 0;
            while i < self.hists.len()
                invariant
                    ds.wf(),
                    view < ds.views@.len(),
                    rv == rows_view(rows@),
                    rows_fit(*ds, rv),
                    oh == old(self).hists@,
                    old(self).room_for(view, rows@.len() as int),
                    old(self).valid_for(ds),
                    r < rows@.len(),
                    i <= self.hists@.len(),
                    vals@ == ds.row_values(rv[r as int]),
                    vals@.len() == ds.n_columns(),
                    pass == ds.row_in_view(view as int, rv[r as int]),
                    old(self).same_but_counts(self),
                    forall|j: int|
                        0 <= j < oh.len() ==> #[trigger] self.hists@[j].status == oh[j].status,
                    forall|j: int|
                        0 <= j < oh.len() && oh[j].view != view ==> #[trigger] self.hists@[j].counts
                            == oh[j].counts,
                    forall|j: int, c: int|
                        0 <= j < oh.len() && oh[j].view == view && 0 <= c < oh[j].counts@.len()
                            ==> #[trigger] self.hists@[j].counts@[c] == oh[j].counts@[c]
                            + count_cell(
                            *ds,
                            view as int,
                            oh[j].axes,
                            rv.take(if j < i {
                                r + 1
                            } else {
                                r as int
                            }),
                            c,
                        ),
                decreases self.hists.len() - i,
            {
                if self.hists[i].view == view {
                    let ghost ax = oh[i as int].axes;
                    proof {
                        assert(old(self).hists@[i as int].valid_for(ds));
                        assert(self.hists@[i as int].axes == ax);
                        lemma_extend_len(ds.derived@, rv[r as int]);
                        lemma_count_step(*ds, view as int, ax, rv, r as int);
                        assert(oh[i as int].valid_for(ds));
                        assert forall|c: int| 0 <= c < oh[i as int].counts@.len() implies count_cell(
                            *ds,
                            view as int,
                            ax,
                            rv.take(r as int),
                            c,
                        ) <= r by {
                            crate::registry::lemma_count_cell_bound(
                                *ds,
                                view as int,
                                ax,
                                rv.take(r as int),
                                c,
                            );
                        }
                    }
                    let cell = if pass {
                        self.hists[i].cell(&vals)
                    } else {
                        None
                    };
                    let ghost before = self.hists@[i as int].counts@;
                    proof {
                        assert(row_cell(*ds, view as int, ax, rv[r as int]) == if pass {
                            crate::registry::cell_spec(ax, vals@)
                        } else {
                            None
                        });
                        assert(forall|c: int|
                            0 <= c < oh[i as int].counts@.len() ==> before[c] == oh[i as int].counts@[c]
                                + count_cell(*ds, view as int, ax, rv.take(r as int), c));
                    }
                    match cell {
                        Some(c0) => {
                            proof {
                                assert(pass);
                                let cs = crate::registry::cell_spec(ax, vals@);
                                assert(cs is Some);
                                assert(cs->0 == c0 as int);
                            }
                            let x = self.hists[i].counts[c0];
                            let ghost prev = self.hists@;
                            self.hists[i].counts[c0] = x + 1;
                            proof {
                                assert forall|j: int| 0 <= j < prev.len() && j != i implies self.hists@[j]
                                    == prev[j] by {}
                                assert(self.hists@[i as int].counts@ == before.update(c0 as int, (x + 1) as u64));
                                assert forall|c: int| 0 <= c < oh[i as int].counts@.len() implies #[trigger] self.hists@[i as int].counts@[c]
                                    == oh[i as int].counts@[c] + count_cell(*ds, view as int, ax, rv.take(r + 1), c) by {
                                    assert(pass);
                                    assert(row_cell(*ds, view as int, ax, rv[r as int]) == Some(c0 as int));
                                    if c == c0 {
                                        assert(self.hists@[i as int].counts@[c] == before[c] + 1);
                                    } else {
                                        assert(self.hists@[i as int].counts@[c] == before[c]);
                                    }
                                }
                            }
                        },
                        None => {
                            proof {
                                assert forall|c: int| 0 <= c < oh[i as int].counts@.len() implies #[trigger] self.hists@[i as int].counts@[c]
                                    == oh[i as int].counts@[c] + count_cell(*ds, view as int, ax, rv.take(r + 1), c) by {
                                }
                            }
                        },
                    }
                }
                i += 1;
            }
            r += 1;
        }
        proof {
            assert(rv.take(rows@.len() as int) == rv);
            self.lemma_valid_kept(old(self), ds);
            assert forall|i: int| 0 <= i < oh.len() && oh[i].view == view implies counts_view(
                #[trigger] self.hists@[i].counts@,
            ) == Seq::new(
                oh[i].counts@.len(),
                |c: int| oh[i].counts@[c] + count_cell(*ds, view as int, oh[i].axes, rv, c),
            ) by {
                assert(counts_view(self.hists@[i].counts@) =~= Seq::new(
                    oh[i].counts@.len(),
                    |c: int| oh[i].counts@[c] + count_cell(*ds, view as int, oh[i].axes, rv, c),
                ));
            }
        }
    }

    /// Whether every count of every histogram on `view` can take `n` more rows.
    pub fn has_room(&self, view: usize, n: usize) -> (r: bool)
        ensures
            r == self.room_for(view, n as int),
    {
        let limit: u64 = u64::MAX - n as u64;
        let mut i: usize = 0;
        while i < self.hists.len()
            invariant
                i <= self.hists@.len(),
                limit == u64::MAX - n,
                forall|j: int, c: int|
                    0 <= j < i && self.hists@[j].view == view && 0 <= c
                        < self.hists@[j].counts@.len() ==> #[trigger] self.hists@[j].counts@[c]
                        + n <= u64::MAX,
            decreases self.hists.len() - i,
        {
            if self.hists[i].view == view && !all_at_most(&self.hists[i].counts, limit) {
                return false;
            }
            i += 1;
        }
        true
    }

    /// Runs every registered histogram once over the dataset snapshot `rows`
    /// (the base-column values of each row): one pass per distinct view, each
    /// starting from zeroed counts and ending with the view's histograms complete.
    pub fn run(&mut self, ds: &Dataset, rows: &Vec<Vec<Sample>>)
        requires
            ds.wf(),
            old(self).valid_for(ds),
            rows_fit(*ds, rows_view(rows@)),
        ensures
            final(self).valid_for(ds),
            final(self).defs() == old(self).defs(),
            final(self).results() == run_result(*ds, *old(self), rows_view(rows@)),
            forall|i: int|
                0 <= i < final(self).hists@.len() ==> #[trigger] final(self).hists@[i].status
                    == Status::Complete,
    {
        let ghost rv = rows_view(rows@);
        let ghost oh = old(self).hists@;
        let views = self.views_to_scan();
        let mut k: usize = 0;
        while k < views.len()
            invariant
                ds.wf(),
                rv == rows_view(rows@),
                rows_fit(*ds, rv),
                oh == old(self).hists@,
                old(self).valid_for(ds),
                self.valid_for(ds),
                old(self).same_but_counts(self),
                k <= views@.len(),
                forall|i: int| 0 <= i < oh.len() ==> views@.contains(#[trigger] oh[i].view),
                forall|m: int|
                    0 <= m < views@.len() ==> used_before(oh, oh.len() as int, #[trigger] views@[m]),
                forall|i: int|
                    #![trigger self.hists@[i]]
                    0 <= i < oh.len() && views@.take(k as int).contains(oh[i].view) ==> {
                        &&& counts_view(self.hists@[i].counts@) == expected_counts(
                            *ds,
                            oh[i].view as int,
                            oh[i].axes,
                            rv,
                        )
                        &&& self.hists@[i].status == Status::Complete
                    },
            decreases views.len() - k,
        {
            let v = views[k];
            proof {
                assert(used_before(oh, oh.len() as int, views@[k as int]));
                let j = choose|j: int| 0 <= j < oh.len() && oh[j].view == v;
                assert(oh[j].valid_for(ds));
            }
            self.begin_view(ds, v);
            let n_rows = rows.len();
            proof {
                assert(rows@.len() <= usize::MAX);
                assert forall|i: int, c: int|
                    0 <= i < self.hists@.len() && self.hists@[i].view == v && 0 <= c
                        < self.hists@[i].counts@.len() implies self.hists@[i].counts@[c]
                    + rows@.len() <= u64::MAX by {
                    assert(counts_view(self.hists@[i].counts@)[c] == 0);
                }
            }
            let ghost mid = self.hists@;
            self.fill_batch(ds, v, rows);
            let ghost filled = self.hists@;
            self.finish_view(ds, v, true);
            proof {
                assert forall|i: int|
                    #![trigger self.hists@[i]]
                    0 <= i < oh.len() && views@.take(k + 1).contains(oh[i].view) implies {
                    &&& counts_view(self.hists@[i].counts@) == expected_counts(
                        *ds,
                        oh[i].view as int,
                        oh[i].axes,
                        rv,
                    )
                    &&& self.hists@[i].status == Status::Complete
                } by {
                    if oh[i].view == v {
                        assert(oh[i].valid_for(ds));
                        assert(self.hists@[i].counts == filled[i].counts);
                        assert(counts_view(mid[i].counts@) == Seq::new(oh[i].counts@.len(), |c: int| 0int));
                        assert forall|c: int| 0 <= c < oh[i].counts@.len() implies mid[i].counts@[c] == 0 by {
                            assert(counts_view(mid[i].counts@)[c] == 0);
                        }
                        assert(counts_view(self.hists@[i].counts@) =~= expected_counts(
                            *ds,
                            oh[i].view as int,
                            oh[i].axes,
                            rv,
                        ));
                    } else {
                        let m = choose|m: int| 0 <= m < k + 1 && #[trigger] views@.take(k + 1)[m] == oh[i].view;
                        assert(views@.take(k as int)[m] == oh[i].view);
                        assert(views@.take(k as int).contains(oh[i].view));
                    }
                }
            }
            k += 1;
        }
        proof {
            assert(views@.take(views@.len() as int) == views@);
            assert(self.defs() =~= old(self).defs());
            assert(self.results() =~= run_result(*ds, *old(self), rv)) by {
                assert forall|i: int| 0 <= i < oh.len() implies self.results()[i] == run_result(
                    *ds,
                    *old(self),
                    rv,
                )[i] by {
                    assert(views@.contains(oh[i].view));
                    assert(self.hists@[i].status == Status::Complete);
                }
            }
        }
    }
}

fn all_at_most(v: &Vec<u64>, limit: u64) -> (r: bool)
    ensures
        r == forall|c: int| 0 <= c < v@.len() ==> v@[c] <= limit,
{
    let mut c: usize = 0;
    while c < v.len()
        invariant
            c <= v@.len(),
            forall|d: int| 0 <= d < c ==> v@[d] <= limit,
        decreases v.len() - c,
    {
        if v[c] > limit {
            return false;
        }
        c += 1;
    }
    true
}

/// Sum of a sequence of counts.
pub open spec fn total(s: Seq<int>) -> int
    decreases s.len(),
{
    if s.len() == 0 {
        0
    } else {
        total(s.drop_last()) + s.last()
    }
}

/// Number of rows that pass view `view` and whose value in `column` is finite
/// and within the half-open range of `spec`.
pub open spec fn count_in_range(
    ds: Dataset,
    view: int,
    column: usize,
    spec: BinSpec,
    rows: Seq<Seq<Sample>>,
) -> nat
    decreases rows.len(),
{
    if rows.len() == 0 {
        0
    } else {
        count_in_range(ds, view, column, spec, rows.drop_last()) + if ds.row_in_view(
            view,
            rows.last(),
        ) && map_spec(ds.row_values(rows.last())[column as int], spec) is Some {
            1nat
        } else {
            0nat
        }
    }
}

spec fn sum_cells(ds: Dataset, view: int, axes: Axes, rows: Seq<Seq<Sample>>, n: int) -> int
    decreases n,
{
    if n <= 0 {
        0
    } else {
        sum_cells(ds, view, axes, rows, n - 1) + count_cell(ds, view, axes, rows, n - 1)
    }
}

proof fn lemma_total_is_sum_cells(ds: Dataset, view: int, axes: Axes, rows: Seq<Seq<Sample>>, n: int)
    requires
        0 <= n,
    ensures
        total(Seq::new(n as nat, |c: int| count_cell(ds, view, axes, rows, c) as int)) == sum_cells(
            ds,
            view,
            axes,
            rows,
            n,
        ),
    decreases n,
{
    if n > 0 {
        let s = Seq::new(n as nat, |c: int| count_cell(ds, view, axes, rows, c) as int);
        assert(s.drop_last() =~= Seq::new(
            (n - 1) as nat,
            |c: int| count_cell(ds, view, axes, rows, c) as int,
        ));
        lemma_total_is_sum_cells(ds, view, axes, rows, n - 1);
    }
}

proof fn lemma_sum_cells_step(ds: Dataset, view: int, axes: Axes, rows: Seq<Seq<Sample>>, n: int)
    requires
        rows.len() > 0,
        0 <= n,
    ensures
        sum_cells(ds, view, axes, rows, n) == sum_cells(ds, view, axes, rows.drop_last(), n) + if (
        row_cell(ds, view, axes, rows.last()) matches Some(c) && 0 <= c < n) {
            1int
        } else {
            0int
        },
    decreases n,
{
    if n > 0 {
        lemma_sum_cells_step(ds, view, axes, rows, n - 1);
    }
}

proof fn lemma_sum_cells_empty(ds: Dataset, view: int, axes: Axes, rows: Seq<Seq<Sample>>, n: int)
    requires
        rows.len() == 0,
    ensures
        sum_cells(ds, view, axes, rows, n) == 0,
    decreases n,
{
    if n > 0 {
        lemma_sum_cells_empty(ds, view, axes, rows, n - 1);
    }
}

proof fn lemma_sum_cells_counts_binned(
    ds: Dataset,
    view: int,
    column: usize,
    spec: BinSpec,
    rows: Seq<Seq<Sample>>,
)
    requires
        ds.wf(),
        rows_fit(ds, rows),
        column < ds.n_columns(),
        spec.wf(),
    ensures
        sum_cells(ds, view, Axes::One { column, spec }, rows, spec.bin_count as int)
            == count_in_range(ds, view, column, spec, rows),
    decreases rows.len(),
{
    let axes = Axes::One { column, spec };
    if rows.len() == 0 {
        lemma_sum_cells_empty(ds, view, axes, rows, spec.bin_count as int);
    } else {
        let rest = rows.drop_last();
        assert(rows_fit(ds, rest)) by {
            assert forall|r: int| 0 <= r < rest.len() implies #[trigger] rest[r].len()
                == ds.n_base by {
                assert(rest[r] == rows[r]);
            }
        }
        lemma_sum_cells_counts_binned(ds, view, column, spec, rest);
        lemma_sum_cells_step(ds, view, axes, rows, spec.bin_count as int);
        let last = rows.last();
        assert(last == rows[rows.len() - 1]);
        lemma_extend_len(ds.derived@, last);
        if row_cell(ds, view, axes, last) is Some {
            crate::registry::lemma_cell_in_range(
                axes,
                ds.row_values(last),
                ds.n_columns(),
            );
        }
    }
}

/// The counts of a one-dimensional histogram, as one pass over `rows` leaves
/// them, add up to the number of rows that pass the view's filter chain and
/// have a finite, in-range value in the histogram's column.
pub proof fn lemma_total_counts_1d(
    ds: Dataset,
    view: int,
    column: usize,
    spec: BinSpec,
    rows: Seq<Seq<Sample>>,
)
    requires
        ds.wf(),
        rows_fit(ds, rows),
        column < ds.n_columns(),
        spec.wf(),
    ensures
        total(expected_counts(ds, view, Axes::One { column, spec }, rows)) == count_in_range(
            ds,
            view,
            column,
            spec,
            rows,
        ),
{
    let axes = Axes::One { column, spec };
    lemma_total_is_sum_cells(ds, view, axes, rows, spec.bin_count as int);
    assert(expected_counts(ds, view, axes, rows) =~= Seq::new(
        spec.bin_count as nat,
        |c: int| count_cell(ds, view, axes, rows, c) as int,
    ));
    lemma_sum_cells_counts_binned(ds, view, column, spec, rows);
}

/// A run is deterministic: two registries with the same definitions, run over
/// the same rows of the same dataset context, end with identical counts. As
/// `run` keeps the definitions, running twice gives the same results twice.
pub proof fn lemma_run_deterministic(ds: Dataset, a: Registry, b: Registry, rows: Seq<Seq<Sample>>)
    requires
        a.defs() == b.defs(),
    ensures
        run_result(ds, a, rows) == run_result(ds, b, rows),
{
    assert(a.hists@.len() == a.defs().len());
    assert forall|i: int| 0 <= i < a.hists@.len() implies run_result(ds, a, rows)[i] == run_result(
        ds,
        b,
        rows,
    )[i] by {
        assert(a.defs()[i] == b.defs()[i]);
    }
    assert(run_result(ds, a, rows) =~= run_result(ds, b, rows));
}

/// Histograms do not contaminate each other: after a run, the counts of a
/// histogram depend on its own view and axes alone. Any histogram with the
/// same view and axes, in any registry and beside any other histograms
/// (on the same view and other columns, say), gets the same counts, and for a
/// one-dimensional histogram each count is the number of rows of the view
/// whose value in its own column falls in that bin.
pub proof fn lemma_counts_own_definition(
    ds: Dataset,
    a: Registry,
    i: int,
    b: Registry,
    j: int,
    rows: Seq<Seq<Sample>>,
)
    requires
        0 <= i < a.hists@.len(),
        0 <= j < b.hists@.len(),
        a.hists@[i].view == b.hists@[j].view,
        a.hists@[i].axes == b.hists@[j].axes,
    ensures
        run_result(ds, a, rows)[i] == run_result(ds, b, rows)[j],
        a.hists@[i].axes matches Axes::One { column, spec } ==> forall|c: int|
            0 <= c < spec.bin_count ==> #[trigger] run_result(ds, a, rows)[i][c] == count_cell(
                ds,
                a.hists@[i].view as int,
                Axes::One { column, spec },
                rows,
                c,
            ),
{
}

} // verus!
