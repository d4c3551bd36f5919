//! The dataset context: the column schema (base columns, then derived ones)
//! and the arena of filtered views, each addressed by its position.
use vstd::prelude::*;
use crate::error::HistError;
use crate::expr::{
    column_index, eval, eval_spec, lemma_resolved_refs_below, name_seq, refs_below, resolve,
    resolve_spec, Expr, Formula,
};
use crate::sample::{compare, compare_spec, Comparator, Sample};

verus! {

/// A filter as a caller declares it: `column <cmp> constant`.
#[derive(Debug)]
pub struct Filter {
    pub column: String,
    pub cmp: Comparator,
    pub constant: Sample,
}

/// A filter whose column is resolved to its position in a row.
#[derive(Clone, Copy, Debug, PartialEq, Eq, Structural)]
pub struct Predicate {
    pub column: usize,
    pub cmp: Comparator,
    pub constant: Sample,
}

/// A node of the view arena: its parent (none for the base view) and its own
/// filters, applied after all of the parent's.
#[derive(Debug)]
pub struct ViewNode {
    pub parent: Option<usize>,
    pub filters: Vec<Predicate>,
}

/// Column `i` of a row is a base column for `i < n_base`, otherwise the derived
/// column `derived[i - n_base]`, whose formula reads only columns before `i`.
/// View `0` is the unfiltered base view.
#[derive(Debug)]
pub struct Dataset {
    pub columns: Vec<String>,
    pub n_base: usize,
    pub derived: Vec<Formula>,
    pub views: Vec<ViewNode>,
}

pub open spec fn distinct(ns: Seq<Seq<char>>) -> bool {
    forall|i: int, j: int| 0 <= i < ns.len() && 0 <= j < ns.len() && i != j ==> ns[i] != ns[j]
}

pub open spec fn preds_below(ps: Seq<Predicate>, n: int) -> bool {
    forall|k: int| 0 <= k < ps.len() ==> ps[k].column < n
}

/// A row extended with the values of the derived columns, in order.
pub open spec fn extend_row(derived: Seq<Formula>, row: Seq<Sample>) -> Seq<Sample>
    decreases derived.len(),
{
    if derived.len() == 0 {
        row
    } else {
        let p = extend_row(derived.drop_last(), row);
        p.push(eval_spec(derived.last(), p))
    }
}

/// Every predicate of `ps` holds on the row values `vals`.
pub open spec fn preds_hold(ps: Seq<Predicate>, vals: Seq<Sample>) -> bool {
    forall|k: int|
        0 <= k < ps.len() ==> compare_spec(vals[ps[k].column as int], ps[k].cmp, ps[k].constant)
}

/// A row passes view `v` if it passes every ancestor's filters and `v`'s own.
pub open spec fn passes_spec(views: Seq<ViewNode>, v: int, vals: Seq<Sample>) -> bool
    decreases v,
{
    if 0 <= v < views.len() {
        &&& preds_hold(views[v].filters@, vals)
        &&& match views[v].parent {
            None => true,
            Some(p) => p < v && passes_spec(views, p as int, vals),
        }
    } else {
        false
    }
}

/// The resolved form of a list of filters; none if a column is missing.
pub open spec fn resolve_filters_spec(fs: Seq<Filter>, names: Seq<Seq<char>>) -> Option<
    Seq<Predicate>,
> {
    if forall|k: int| 0 <= k < fs.len() ==> names.index_of_first(fs[k].column@) is Some {
        Some(
            Seq::new(
                fs.len(),
                |k: int|
                    Predicate {
                        column: names.index_of_first(fs[k].column@)->0 as usize,
                        cmp: fs[k].cmp,
                        constant: fs[k].constant,
                    },
            ),
        )
    } else {
        None
    }
}

pub proof fn lemma_extend_len(derived: Seq<Formula>, row: Seq<Sample>)
    ensures
        extend_row(derived, row).len() == row.len() + derived.len(),
    decreases derived.len(),
{
    if derived.len() > 0 {
        lemma_extend_len(derived.drop_last(), row);
    }
}

impl Dataset {
    pub open spec fn names(&self) -> Seq<Seq<char>> {
        name_seq(self.columns@)
    }

    pub open spec fn n_columns(&self) -> int {
        self.columns@.len() as int
    }

    pub open spec fn wf(&self) -> bool {
        &&& self.columns@.len() == self.n_base + self.derived@.len()
        &&& forall|i: int|
            0 <= i < self.derived@.len() ==> refs_below(self.derived@[i], self.n_base + i)
        &&& distinct(self.names())
        &&& self.views@.len() >= 1
        &&& self.views@[0].parent is None
        &&& self.views@[0].filters@.len() == 0
        &&& forall|v: int|
            0 <= v < self.views@.len() ==> {
                &&& (self.views@[v].parent matches Some(p) ==> p < v)
                &&& preds_below(self.views@[v].filters@, self.n_columns())
            }
    }

    /// All column values of a provider row, base columns first.
    pub open spec fn row_values(&self, row: Seq<Sample>) -> Seq<Sample> {
        extend_row(self.derived@, row)
    }

    /// Whether a provider row passes view `v`.
    pub open spec fn row_in_view(&self, v: int, row: Seq<Sample>) -> bool {
        passes_spec(self.views@, v, self.row_values(row))
    }

    /// A context over the given base columns, with the base view `0`.
    pub fn new(base_columns: Vec<String>) -> (r: Result<Dataset, HistError>)
        ensures
            distinct(name_seq(base_columns@)) <==> r is Ok,
            r is Err ==> r == Err::<Dataset, HistError>(HistError::DuplicateName),
            r matches Ok(d) ==> {
                &&& d.wf()
                &&& d.columns@ == base_columns@
                &&& d.n_base == base_columns@.len()
                &&& d.derived@.len() == 0
                &&& d.views@.len() == 1
            },
    {
        let mut columns: Vec<String> = Vec::new();
        let mut i: usize = 0;
        while i < base_columns.len()
            invariant
                i <= base_columns@.len(),
                columns@ == base_columns@.take(i as int),
                distinct(name_seq(columns@)),
            decreases base_columns.len() - i,
        {
            let name = base_columns[i].clone();
            match column_index(&columns, &name) {
                Some(j) => {
                    proof {
                        name_seq(columns@).index_of_first_ensures(name@);
                        let ns = name_seq(base_columns@);
                        assert(ns[j as int] == ns[i as int]);
                    }
                    return Err(HistError::DuplicateName);
                },
                None => {
                    proof {
                        name_seq(columns@).index_of_first_ensures(name@);
                    }
                    columns.push(name);
                    proof {
                        assert(columns@ == base_columns@.take(i + 1));
                        assert(name_seq(columns@) == name_seq(
                            base_columns@.take(i as int),
                        ).push(name@));
                    }
                    i += 1;
                },
            }
        }
        proof {
            assert(columns@ == base_columns@);
        }
        let n_base = columns.len();
        let mut views: Vec<ViewNode> = Vec::new();
        views.push(ViewNode { parent: None, filters: Vec::new() });
        Ok(Dataset { columns, n_base, derived: Vec::new(), views })
    }

    /// The unfiltered base view.
    pub fn base_view(&self) -> (r: usize)
        ensures
            r == 0,
    {
        0
    }

    /// Declares a derived column `name` computed by `expr` over the columns
    /// declared so far.
    pub fn add_derived(&mut self, name: String, expr: &Expr) -> (r: Result<usize, HistError>)
        requires
            old(self).wf(),
        ensures
            final(self).wf(),
            old(self).names().contains(name@) ==> r == Err::<usize, HistError>(
                HistError::DuplicateName,
            ),
            !old(self).names().contains(name@) && resolve_spec(*expr, old(self).names()) is None
                ==> r == Err::<usize, HistError>(HistError::UnknownColumn),
            r is Ok <==> !old(self).names().contains(name@) && resolve_spec(*expr, old(self).names())
                is Some,
            r is Err ==> *final(self) == *old(self),
            r matches Ok(c) ==> {
                &&& !old(self).names().contains(name@)
                &&& resolve_spec(*expr, old(self).names()) is Some
                &&& c == old(self).columns@.len()
                &&& final(self).columns@ == old(self).columns@.push(name)
                &&& final(self).derived@ == old(self).derived@.push(
                    resolve_spec(*expr, old(self).names())->0,
                )
                &&& final(self).n_base == old(self).n_base
                &&& final(self).views == old(self).views
            },
    {
        if let Some(_) = column_index(&self.columns, &name) {
            proof {
                self.names().index_of_first_ensures(name@);
            }
            return Err(HistError::DuplicateName);
        }
        proof {
            self.names().index_of_first_ensures(name@);
        }
        match resolve(expr, &self.columns) {
            None => Err(HistError::UnknownColumn),
            Some(f) => {
                proof {
                    lemma_resolved_refs_below(*expr, self.names());
                }
                let c = self.columns.len();
                let ghost old_names = self.names();
                self.columns.push(name);
                self.derived.push(f);
                proof {
                    assert(self.names() == old_names.push(name@));
                    assert forall|i: int|
                        0 <= i < self.derived@.len() implies refs_below(
                        self.derived@[i],
                        self.n_base + i,
                    ) by {
                        if i < self.derived@.len() - 1 {
                            assert(self.derived@[i] == old(self).derived@[i]);
                        }
                    }
                    assert forall|v: int| 0 <= v < self.views@.len() implies preds_below(
                        self.views@[v].filters@,
                        self.n_columns(),
                    ) by {
                        assert(preds_below(self.views@[v].filters@, old(self).n_columns()));
                    }
                }
                Ok(c)
            },
        }
    }

    /// Declares a view that applies `filters`, in order, to the rows of view `parent`.
    pub fn add_view(&mut self, parent: usize, filters: &Vec<Filter>) -> (r: Result<
        usize,
        HistError,
    >)
        requires
            old(self).wf(),
        ensures
            final(self).wf(),
            parent >= old(self).views@.len() ==> r == Err::<usize, HistError>(
                HistError::UnknownView,
            ),
            parent < old(self).views@.len() && resolve_filters_spec(filters@, old(self).names())
                is None ==> r == Err::<usize, HistError>(HistError::UnknownColumn),
            r is Ok <==> parent < old(self).views@.len() && resolve_filters_spec(
                filters@,
                old(self).names(),
            ) is Some,
            r is Err ==> *final(self) == *old(self),
            r matches Ok(v) ==> {
                &&& parent < old(self).views@.len()
                &&& resolve_filters_spec(filters@, old(self).names()) is Some
                &&& v == old(self).views@.len()
                &&& final(self).views@.len() == v + 1
                &&& final(self).views@.take(v as int) == old(self).views@
                &&& final(self).views@[v as int].parent == Some(parent)
                &&& final(self).views@[v as int].filters@ == resolve_filters_spec(
                    filters@,
                    old(self).names(),
                )->0
                &&& final(self).columns == old(self).columns
                &&& final(self).derived == old(self).derived
                &&& final(self).n_base == old(self).n_base
            },
    {
        if parent >= self.views.len() {
            return Err(HistError::UnknownView);
        }
        let ghost names = self.names();
        let mut preds: Vec<Predicate> = Vec::new();
        let mut k: usize = 0;
        while k < filters.len()
            invariant
                *self == *old(self),
                self.wf(),
                names == self.names(),
                parent < self.views@.len(),
                k <= filters@.len(),
                preds@.len() == k,
                forall|j: int|
                    0 <= j < k ==> {
                        &&& names.index_of_first(#[trigger] filters@[j].column@) == Some(
                            preds@[j].column as int,
                        )
                        &&& preds@[j].cmp == filters@[j].cmp
                        &&& preds@[j].constant == filters@[j].constant
                    },
            decreases filters.len() - k,
        {
            match column_index(&self.columns, &filters[k].column) {
                None => {
                    proof {
                        assert(names.index_of_first(filters@[k as int].column@) is None);
                    }
                    return Err(HistError::UnknownColumn);
                },
                Some(c) => {
                    preds.push(
                        Predicate { column: c, cmp: filters[k].cmp, constant: filters[k].constant },
                    );
                },
            }
            k += 1;
        }
        proof {
            let rs = resolve_filters_spec(filters@, names);
            assert(rs is Some);
            assert(preds@ == rs->0);
            assert forall|j: int| 0 <= j < preds@.len() implies preds@[j].column
                < self.n_columns() by {
                names.index_of_first_ensures(filters@[j].column@);
            }
        }
        let v = self.views.len();
        self.views.push(ViewNode { parent: Some(parent), filters: preds });
        proof {
            assert(self.views@.take(v as int) == old(self).views@);
            assert forall|w: int| 0 <= w < self.views@.len() implies {
                &&& (self.views@[w].parent matches Some(p) ==> p < w)
                &&& preds_below(self.views@[w].filters@, self.n_columns())
            } by {
                if w < v {
                    assert(self.views@[w] == old(self).views@[w]);
                }
            }
        }
        Ok(v)
    }

    /// All column values of a provider row (its base columns), derived columns appended.
    pub fn full_row(&self, row: &Vec<Sample>) -> (r: Vec<Sample>)
        requires
            self.wf(),
            row@.len() == self.n_base,
        ensures
            r@ == self.row_values(row@),
            r@.len() == self.n_columns(),
    {
        let mut vals: Vec<Sample> = Vec::new();
        let mut i: usize = 0;
        while i < row.len()
            invariant
                i <= row@.len(),
                vals@ == row@.take(i as int),
            decreases row.len() - i,
        {
            vals.push(row[i]);
            i += 1;
            proof {
                assert(vals@ == row@.take(i as int));
            }
        }
        proof {
            assert(vals@ == row@);
        }
        let mut d: usize = 0;
        while d < self.derived.len()
            invariant
                self.wf(),
                row@.len() == self.n_base,
                d <= self.derived@.len(),
                vals@ == extend_row(self.derived@.take(d as int), row@),
            decreases self.derived.len() - d,
        {
            proof {
                lemma_extend_len(self.derived@.take(d as int), row@);
            }
            let x = eval(&self.derived[d], &vals);
            vals.push(x);
            proof {
                assert(self.derived@.take(d + 1).drop_last() == self.derived@.take(d as int));
            }
            d += 1;
        }
        proof {
            assert(self.derived@.take(d as int) == self.derived@);
            lemma_extend_len(self.derived@, row@);
        }
        vals
    }

    /// Whether row values `vals` pass view `v`: ancestors' filters first, then
    /// `v`'s own in declaration order, stopping at the first that fails.
    pub fn passes(&self, v: usize, vals: &Vec<Sample>) -> (r: bool)
        requires
            self.wf(),
            v < self.views@.len(),
            vals@.len() == self.n_columns(),
        ensures
            r == passes_spec(self.views@, v as int, vals@),
        decreases v,
    {
        if let Some(p) = self.views[v].parent {
            if !self.passes(p, vals) {
                return false;
            }
        }
        let filters = &self.views[v].filters;
        let mut k: usize = 0;
        while k < filters.len()
            invariant
                self.wf(),
                v < self.views@.len(),
                vals@.len() == self.n_columns(),
                filters == &self.views@[v as int].filters,
                k <= filters@.len(),
                forall|j: int|
                    0 <= j < k ==> compare_spec(
                        vals@[filters@[j].column as int],
                        filters@[j].cmp,
                        filters@[j].constant,
                    ),
            decreases filters.len() - k,
        {
            let p = filters[k];
            if !compare(vals[p.column], p.cmp, p.constant) {
                return false;
            }
            k += 1;
        }
        true
    }
}

} // verus!
