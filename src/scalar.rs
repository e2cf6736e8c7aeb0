//! Scalar arithmetic on `i64` as the vector and matrix code uses it: the
//! range check that keeps every step free of overflow, and division and
//! remainder rounded toward zero, as Rust computes them.
use vstd::prelude::*;

verus! {

/// Whether a mathematical integer is a value of `i64`.
pub open spec fn fits(v: int) -> bool {
    i64::MIN <= v <= i64::MAX
}

/// Whether `a / b` and `a % b` are defined on `i64`: no division by zero,
/// and not the one quotient that overflows.
pub open spec fn div_ok(a: i64, b: i64) -> bool {
    b != 0 && !(a == i64::MIN && b == -1)
}

/// Quotient rounded toward zero, as Rust's `/` on signed integers.
pub open spec fn quot(a: int, b: int) -> int {
    if a >= 0 {
        if b > 0 { a / b } else { -(a / (-b)) }
    } else {
        if b > 0 { -((-a) / b) } else { (-a) / (-b) }
    }
}

/// Absolute value.
pub open spec fn abs(a: int) -> int {
    if a < 0 { -a } else { a }
}

/// Remainder that goes with `quot`, as Rust's `%` on signed integers.
pub open spec fn rem(a: int, b: int) -> int {
    a - b * quot(a, b)
}

pub proof fn lemma_div_nonneg(x: int, y: int)
    requires
        x >= 0,
        y > 0,
    ensures
        0 <= x / y <= x,
        y > 1 && x > 0 ==> x / y < x,
        x % y == x - y * (x / y),
{
    assert(0 <= x / y <= x) by (nonlinear_arith)
        requires x >= 0, y > 0;
    assert(y > 1 && x > 0 ==> x / y < x) by (nonlinear_arith)
        requires x >= 0, y > 0;
    assert(x % y == x - y * (x / y)) by (nonlinear_arith)
        requires x >= 0, y > 0;
}

pub proof fn lemma_quot(a: int, b: int)
    requires
        b != 0,
    ensures
        -abs(a) <= quot(a, b) <= abs(a),
        abs(b) > 1 && a != 0 ==> -abs(a) < quot(a, b) < abs(a),
        rem(a, b) == if a >= 0 { abs(a) % abs(b) } else { -(abs(a) % abs(b)) },
{
    let x = abs(a);
    let y = abs(b);
    let q = x / y;
    lemma_div_nonneg(x, y);
    assert(b * (-q) == -(b * q)) by (nonlinear_arith);
    assert((-b) * q == -(b * q)) by (nonlinear_arith);
}

/// `a / b` on `i64`.
pub fn div_i64(a: i64, b: i64) -> (r: i64)
    requires
        div_ok(a, b),
    ensures
        r as int == quot(a as int, b as int),
{
    proof {
        lemma_quot(a as int, b as int);
    }
    a.checked_div(b).unwrap()
}

/// `a % b` on `i64`.
pub fn rem_i64(a: i64, b: i64) -> (r: i64)
    requires
        div_ok(a, b),
    ensures
        r as int == rem(a as int, b as int),
{
    proof {
        lemma_quot(a as int, b as int);
    }
    a.checked_rem(b).unwrap()
}

} // verus!
