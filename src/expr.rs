//! Derived-column expressions: declared over column names, resolved to
//! column positions at registration, and evaluated row by row.
use vstd::prelude::*;
use crate::sample::{apply, apply_spec, BinOp, Sample};

verus! {

/// An arithmetic expression over column names and constants, as a caller declares it.
#[derive(Debug)]
pub enum Expr {
    Literal(Sample),
    Column(String),
    Binary(BinOp, Box<Expr>, Box<Expr>),
}

/// An expression whose column references are positions in a row.
#[derive(Debug)]
pub enum Formula {
    Literal(Sample),
    Column(usize),
    Binary(BinOp, Box<Formula>, Box<Formula>),
}

/// The names of a list of columns, as sequences of characters.
pub open spec fn name_seq(v: Seq<String>) -> Seq<Seq<char>> {
    v.map_values(|s: String| s@)
}

/// Every column position in `f` is below `n`.
pub open spec fn refs_below(f: Formula, n: int) -> bool
    decreases f,
{
    match f {
        Formula::Literal(_) => true,
        Formula::Column(c) => c < n,
        Formula::Binary(_, l, r) => refs_below(*l, n) && refs_below(*r, n),
    }
}

/// The value of `f` on a row.
pub open spec fn eval_spec(f: Formula, row: Seq<Sample>) -> Sample
    decreases f,
{
    match f {
        Formula::Literal(s) => s,
        Formula::Column(c) => row[c as int],
        Formula::Binary(op, l, r) => apply_spec(op, eval_spec(*l, row), eval_spec(*r, row)),
    }
}

/// `e` with each column name replaced by the position of its first occurrence
/// in `names`; none if a name is missing.
pub open spec fn resolve_spec(e: Expr, names: Seq<Seq<char>>) -> Option<Formula>
    decreases e,
{
    match e {
        Expr::Literal(s) => Some(Formula::Literal(s)),
        Expr::Column(n) => match names.index_of_first(n@) {
            Some(i) => Some(Formula::Column(i as usize)),
            None => None,
        },
        Expr::Binary(op, l, r) => match (resolve_spec(*l, names), resolve_spec(*r, names)) {
            (Some(fl), Some(fr)) => Some(Formula::Binary(op, Box::new(fl), Box::new(fr))),
            _ => None,
        },
    }
}

pub proof fn lemma_resolved_refs_below(e: Expr, names: Seq<Seq<char>>)
    requires
        resolve_spec(e, names) is Some,
    ensures
        refs_below(resolve_spec(e, names)->0, names.len() as int),
    decreases e,
{
    match e {
        Expr::Column(n) => {
            names.index_of_first_ensures(n@);
        },
        Expr::Binary(_, l, r) => {
            lemma_resolved_refs_below(*l, names);
            lemma_resolved_refs_below(*r, names);
        },
        _ => {},
    }
}

/// Position of the first column called `name`.
pub fn column_index(names: &Vec<String>, name: &String) -> (r: Option<usize>)
    ensures
        r matches Some(i) ==> name_seq(names@).index_of_first(name@) == Some(i as int),
        r is None ==> name_seq(names@).index_of_first(name@) is None,
{
    let ghost ns = name_seq(names@);
    proof {
        ns.index_of_first_ensures(name@);
    }
    let mut i: usize = 0;
    while i < names.len()
        invariant
            ns == name_seq(names@),
            i <= names.len(),
            forall|j: int| 0 <= j < i ==> ns[j] != name@,
        decreases names.len() - i,
    {
        if names[i] == *name {
            proof {
                ns.index_of_first_ensures(name@);
                assert(ns[i as int] == name@);
            }
            return Some(i);
        }
        i += 1;
    }
    proof {
        assert(!ns.contains(name@));
    }
    None
}

/// Resolves the column names of `e` against `names`.
pub fn resolve(e: &Expr, names: &Vec<String>) -> (r: Option<Formula>)
    ensures
        r == resolve_spec(*e, name_seq(names@)),
    decreases e,
{
    match e {
        Expr::Literal(s) => Some(Formula::Literal(*s)),
        Expr::Column(n) => match column_index(names, n) {
            Some(i) => Some(Formula::Column(i)),
            None => None,
        },
        Expr::Binary(op, l, r) => {
            let fl = resolve(l, names);
            let fr = resolve(r, names);
            match (fl, fr) {
                (Some(a), Some(b)) => Some(Formula::Binary(*op, Box::new(a), Box::new(b))),
                _ => None,
            }
        },
    }
}

/// Evaluates `f` on a row whose values are listed by column position.
pub fn eval(f: &Formula, row: &Vec<Sample>) -> (r: Sample)
    requires
        refs_below(*f, row@.len() as int),
    ensures
        r == eval_spec(*f, row@),
    decreases f,
{
    match f {
        Formula::Literal(s) => *s,
        Formula::Column(c) => row[*c],
        Formula::Binary(op, l, r) => {
            let a = eval(l, row);
            let b = eval(r, row);
            apply(*op, a, b)
        },
    }
}

} // verus!
