//! Fixed-point coordinates and the rounding that the layouts use.

use vstd::prelude::*;

verus! {

/// Number of fixed-point steps in one world unit: every length in this
/// library is a whole number of millionths of a unit.
pub const UNIT: i64 = 1_000_000;

/// Largest magnitude of a coordinate or length that the layout functions accept.
pub const COORD_LIMIT: i64 = 0x100_0000_0000;

/// A point (or translation) in the scene, in fixed-point steps of `1 / UNIT`.
#[derive(Clone, Copy, Debug, PartialEq, Eq, Structural)]
pub struct Point3 {
    pub x: i64,
    pub y: i64,
    pub z: i64,
}

impl Point3 {
    pub fn new(x: i64, y: i64, z: i64) -> (r: Point3)
        ensures
            r.x == x,
            r.y == y,
            r.z == z,
    {
        Point3 { x, y, z }
    }
}

/// The extent of a rectangular zone along x and y, in fixed-point steps.
#[derive(Clone, Copy, Debug, PartialEq, Eq, Structural)]
pub struct Size2 {
    pub x: i64,
    pub y: i64,
}

/// Division rounded toward zero, as integer division in Rust rounds.
pub open spec fn trunc_div(a: int, d: int) -> int {
    if a >= 0 {
        a / d
    } else {
        -((-a) / d)
    }
}

/// `a / d` rounded toward zero, for a positive divisor.
pub fn div_toward_zero(a: i64, d: i64) -> (r: i64)
    requires
        d > 0,
        a > i64::MIN,
    ensures
        r == trunc_div(a as int, d as int),
{
    if a >= 0 {
        a / d
    } else {
        -((-a) / d)
    }
}

/// Rounding toward zero is odd: negating the dividend negates the quotient.
pub proof fn lemma_trunc_div_odd(a: int, d: int)
    requires
        d > 0,
    ensures
        trunc_div(-a, d) == -trunc_div(a, d),
{
}

/// The rounded quotient is no larger in size than the exact one:
/// `|trunc_div(a, d)| * d <= |a|`.
pub proof fn lemma_trunc_div_bound(a: int, d: int)
    requires
        d > 0,
    ensures
        a >= 0 ==> 0 <= trunc_div(a, d) && trunc_div(a, d) * d <= a,
        a < 0 ==> trunc_div(a, d) <= 0 && -trunc_div(a, d) * d <= -a,
{
    if a >= 0 {
        vstd::arithmetic::div_mod::lemma_fundamental_div_mod(a, d);
        vstd::arithmetic::div_mod::lemma_div_pos_is_pos(a, d);
        assert(a % d >= 0) by {
            vstd::arithmetic::div_mod::lemma_mod_pos_bound(a, d);
        }
        let q = a / d;
        assert(q * d == d * q) by (nonlinear_arith);
    } else {
        vstd::arithmetic::div_mod::lemma_fundamental_div_mod(-a, d);
        vstd::arithmetic::div_mod::lemma_div_pos_is_pos(-a, d);
        assert((-a) % d >= 0) by {
            vstd::arithmetic::div_mod::lemma_mod_pos_bound(-a, d);
        }
        let q = (-a) / d;
        assert(q * d == d * q) by (nonlinear_arith);
    }
}

/// Rounding toward zero keeps the order of dividends.
pub proof fn lemma_trunc_div_monotone(a: int, b: int, d: int)
    requires
        d > 0,
        a <= b,
    ensures
        trunc_div(a, d) <= trunc_div(b, d),
{
    if a >= 0 {
        vstd::arithmetic::div_mod::lemma_div_is_ordered(a, b, d);
    } else if b < 0 {
        vstd::arithmetic::div_mod::lemma_div_is_ordered(-b, -a, d);
    } else {
        vstd::arithmetic::div_mod::lemma_div_pos_is_pos(-a, d);
        vstd::arithmetic::div_mod::lemma_div_pos_is_pos(b, d);
    }
}

} // verus!
