//! Numeric samples: fixed-point finite values plus the non-finite values
//! that arithmetic can produce (infinities and not-a-number).
//!
//! Finite values are held to the nearest thousandth, so a measurement within
//! half a thousandth of a bin edge may land in the neighbouring bin compared
//! with binning the unrounded value.
use vstd::prelude::*;

verus! {

/// Number of fixed-point units in one whole unit: `Finite(m)` stands for `m / 1000`.
pub const SCALE: i64 = 1000;

/// One value of a column in one row.
#[derive(Clone, Copy, Debug, PartialEq, Eq, Structural)]
pub enum Sample {
    /// A finite value, in thousandths of a unit.
    Finite(i64),
    PosInf,
    NegInf,
    NaN,
}

/// The four arithmetic operations of a derived-column expression.
#[derive(Clone, Copy, Debug, PartialEq, Eq, Structural)]
pub enum BinOp {
    Add,
    Sub,
    Mul,
    Div,
}

/// The comparison of a filter predicate.
#[derive(Clone, Copy, Debug, PartialEq, Eq, Structural)]
pub enum Comparator {
    Eq,
    Neq,
    Lt,
    Gt,
    Le,
    Ge,
}

impl Sample {
    pub open spec fn is_finite(self) -> bool {
        self is Finite
    }
}

/// An exact result in fixed-point units: out of the `i64` range it becomes an infinity.
pub open spec fn from_exact(x: int) -> Sample {
    if x > i64::MAX {
        Sample::PosInf
    } else if x < i64::MIN {
        Sample::NegInf
    } else {
        Sample::Finite(x as i64)
    }
}

/// Integer quotient rounded toward zero.
pub open spec fn quot_toward_zero(a: int, b: int) -> int
    recommends
        b != 0,
{
    if a >= 0 && b > 0 {
        a / b
    } else if a < 0 && b < 0 {
        (-a) / (-b)
    } else if a >= 0 {
        -(a / (-b))
    } else {
        -((-a) / b)
    }
}

/// Sign of a value: 1, -1, or 0 for zero and not-a-number.
pub open spec fn sign_of(s: Sample) -> int {
    match s {
        Sample::Finite(m) => if m > 0 { 1 } else if m < 0 { -1 } else { 0 },
        Sample::PosInf => 1,
        Sample::NegInf => -1,
        Sample::NaN => 0,
    }
}

pub open spec fn inf_of_sign(sg: int) -> Sample {
    if sg > 0 { Sample::PosInf } else { Sample::NegInf }
}

/// Sum, following the rules of extended real arithmetic.
pub open spec fn add_spec(a: Sample, b: Sample) -> Sample {
    match (a, b) {
        (Sample::NaN, _) | (_, Sample::NaN) => Sample::NaN,
        (Sample::PosInf, Sample::NegInf) | (Sample::NegInf, Sample::PosInf) => Sample::NaN,
        (Sample::PosInf, _) | (_, Sample::PosInf) => Sample::PosInf,
        (Sample::NegInf, _) | (_, Sample::NegInf) => Sample::NegInf,
        (Sample::Finite(x), Sample::Finite(y)) => from_exact(x + y),
    }
}

/// Difference, following the rules of extended real arithmetic.
pub open spec fn sub_spec(a: Sample, b: Sample) -> Sample {
    match (a, b) {
        (Sample::NaN, _) | (_, Sample::NaN) => Sample::NaN,
        (Sample::PosInf, Sample::PosInf) | (Sample::NegInf, Sample::NegInf) => Sample::NaN,
        (Sample::PosInf, _) | (_, Sample::NegInf) => Sample::PosInf,
        (Sample::NegInf, _) | (_, Sample::PosInf) => Sample::NegInf,
        (Sample::Finite(x), Sample::Finite(y)) => from_exact(x - y),
    }
}

/// Product in fixed point (rounded toward zero); an infinity times zero is not a number.
pub open spec fn mul_spec(a: Sample, b: Sample) -> Sample {
    match (a, b) {
        (Sample::NaN, _) | (_, Sample::NaN) => Sample::NaN,
        (Sample::Finite(x), Sample::Finite(y)) => from_exact(
            quot_toward_zero(x * y, SCALE as int),
        ),
        _ => if sign_of(a) == 0 || sign_of(b) == 0 {
            Sample::NaN
        } else {
            inf_of_sign(sign_of(a) * sign_of(b))
        },
    }
}

/// Quotient in fixed point (rounded toward zero). A nonzero value over zero is
/// an infinity of the numerator's sign; zero over zero and an infinity over an
/// infinity are not a number; a finite value over an infinity is zero.
pub open spec fn div_spec(a: Sample, b: Sample) -> Sample {
    match (a, b) {
        (Sample::NaN, _) | (_, Sample::NaN) => Sample::NaN,
        (Sample::Finite(x), Sample::Finite(y)) => if y == 0 {
            if x == 0 { Sample::NaN } else { inf_of_sign(sign_of(a)) }
        } else {
            from_exact(quot_toward_zero(x * SCALE, y as int))
        },
        (Sample::Finite(_), _) => Sample::Finite(0),
        (_, Sample::Finite(y)) => if y < 0 {
            inf_of_sign(-sign_of(a))
        } else {
            inf_of_sign(sign_of(a))
        },
        _ => Sample::NaN,
    }
}

pub open spec fn apply_spec(op: BinOp, a: Sample, b: Sample) -> Sample {
    match op {
        BinOp::Add => add_spec(a, b),
        BinOp::Sub => sub_spec(a, b),
        BinOp::Mul => mul_spec(a, b),
        BinOp::Div => div_spec(a, b),
    }
}

/// Position on the extended line; meaningful for values that are not `NaN`.
pub open spec fn rank(s: Sample) -> int {
    match s {
        Sample::NegInf => i64::MIN - 1,
        Sample::Finite(m) => m as int,
        Sample::PosInf => i64::MAX + 1,
        Sample::NaN => 0,
    }
}

/// Whether `v <cmp> c` holds. As with floating point, every comparison with
/// `NaN` is false except `Neq`, which is true.
pub open spec fn compare_spec(v: Sample, cmp: Comparator, c: Sample) -> bool {
    if v is NaN || c is NaN {
        cmp is Neq
    } else {
        match cmp {
            Comparator::Eq => rank(v) == rank(c),
            Comparator::Neq => rank(v) != rank(c),
            Comparator::Lt => rank(v) < rank(c),
            Comparator::Gt => rank(v) > rank(c),
            Comparator::Le => rank(v) <= rank(c),
            Comparator::Ge => rank(v) >= rank(c),
        }
    }
}

fn from_exact_i128(x: i128) -> (r: Sample)
    ensures
        r == from_exact(x as int),
{
    if x > i64::MAX as i128 {
        Sample::PosInf
    } else if x < i64::MIN as i128 {
        Sample::NegInf
    } else {
        Sample::Finite(x as i64)
    }
}

fn quot_toward_zero_i128(a: i128, b: i128) -> (r: i128)
    requires
        b != 0,
        a > i128::MIN,
        b > i128::MIN,
    ensures
        r == quot_toward_zero(a as int, b as int),
{
    let ua: u128 = if a < 0 { (-a) as u128 } else { a as u128 };
    let ub: u128 = if b < 0 { (-b) as u128 } else { b as u128 };
    let q: u128 = ua / ub;
    proof {
        assert(q <= ua) by (nonlinear_arith)
            requires q == ua / ub, ub >= 1;
    }
    if (a < 0) == (b < 0) {
        q as i128
    } else {
        -(q as i128)
    }
}

/// Applies one arithmetic operation.
pub fn apply(op: BinOp, a: Sample, b: Sample) -> (r: Sample)
    ensures
        r == apply_spec(op, a, b),
{
    match (a, b) {
        (Sample::Finite(x), Sample::Finite(y)) => {
            let (xi, yi): (i128, i128) = (x as i128, y as i128);
            match op {
                BinOp::Add => from_exact_i128(xi + yi),
                BinOp::Sub => from_exact_i128(xi - yi),
                BinOp::Mul => {
                    proof {
                        assert(-0x4000_0000_0000_0000_0000_0000_0000_0000 <= xi * yi
                            <= 0x4000_0000_0000_0000_0000_0000_0000_0000) by (nonlinear_arith)
                            requires
                                -0x8000_0000_0000_0000 <= xi <= 0x8000_0000_0000_0000,
                                -0x8000_0000_0000_0000 <= yi <= 0x8000_0000_0000_0000;
                    }
                    let p: i128 = xi * yi;
                    from_exact_i128(quot_toward_zero_i128(p, SCALE as i128))
                },
                BinOp::Div => {
                    if y == 0 {
                        if x == 0 {
                            Sample::NaN
                        } else if x > 0 {
                            Sample::PosInf
                        } else {
                            Sample::NegInf
                        }
                    } else {
                        let n: i128 = xi * (SCALE as i128);
                        from_exact_i128(quot_toward_zero_i128(n, yi))
                    }
                },
            }
        },
        _ => apply_nonfinite(op, a, b),
    }
}

fn sign(s: Sample) -> (r: i8)
    ensures
        r as int == sign_of(s),
{
    match s {
        Sample::Finite(m) => if m > 0 { 1 } else if m < 0 { -1 } else { 0 },
        Sample::PosInf => 1,
        Sample::NegInf => -1,
        Sample::NaN => 0,
    }
}

fn inf_with_sign(sg: i8) -> (r: Sample)
    ensures
        r == inf_of_sign(sg as int),
{
    if sg > 0 { Sample::PosInf } else { Sample::NegInf }
}

fn apply_nonfinite(op: BinOp, a: Sample, b: Sample) -> (r: Sample)
    requires
        !(a.is_finite() && b.is_finite()),
    ensures
        r == apply_spec(op, a, b),
{
    if a == Sample::NaN || b == Sample::NaN {
        return Sample::NaN;
    }
    let (sa, sb): (i8, i8) = (sign(a), sign(b));
    match op {
        BinOp::Add => if a == Sample::PosInf && b == Sample::NegInf || a == Sample::NegInf && b
            == Sample::PosInf {
            Sample::NaN
        } else if a == Sample::PosInf || b == Sample::PosInf {
            Sample::PosInf
        } else {
            Sample::NegInf
        },
        BinOp::Sub => if a == Sample::PosInf && b == Sample::PosInf || a == Sample::NegInf && b
            == Sample::NegInf {
            Sample::NaN
        } else if a == Sample::PosInf || b == Sample::NegInf {
            Sample::PosInf
        } else {
            Sample::NegInf
        },
        BinOp::Mul => if sa == 0 || sb == 0 {
            Sample::NaN
        } else {
            inf_with_sign(sa * sb)
        },
        BinOp::Div => match (a, b) {
            (Sample::Finite(_), _) => Sample::Finite(0),
            (_, Sample::Finite(y)) => if y < 0 {
                inf_with_sign(-sa)
            } else {
                inf_with_sign(sa)
            },
            _ => Sample::NaN,
        },
    }
}

fn rank_of(s: Sample) -> (r: i128)
    ensures
        r as int == rank(s),
{
    match s {
        Sample::NegInf => i64::MIN as i128 - 1,
        Sample::Finite(m) => m as i128,
        Sample::PosInf => i64::MAX as i128 + 1,
        Sample::NaN => 0,
    }
}

/// Evaluates the comparison `v <cmp> c`.
pub fn compare(v: Sample, cmp: Comparator, c: Sample) -> (r: bool)
    ensures
        r == compare_spec(v, cmp, c),
{
    if v == Sample::NaN || c == Sample::NaN {
        return cmp == Comparator::Neq;
    }
    let (x, y): (i128, i128) = (rank_of(v), rank_of(c));
    match cmp {
        Comparator::Eq => x == y,
        Comparator::Neq => x != y,
        Comparator::Lt => x < y,
        Comparator::Gt => x > y,
        Comparator::Le => x <= y,
        Comparator::Ge => x >= y,
    }
}

} // verus!
