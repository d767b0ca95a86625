//! Two-dimensional vectors over fixed-point components.
//!
//! A component is a 64-bit integer that counts thousandths. Arithmetic
//! saturates: a result beyond the range of a component is the end of the
//! range on that side.

use vstd::prelude::*;

verus! {

/// How many steps of a fixed-point number make up one whole.
pub const UNIT: i64 = 1000;

/// A pair of fixed-point components, `[x, y]`.
pub type Vector2 = [i64; 2];

/// Named access to the components of a vector.
pub trait Vector2Ext {
    /// The horizontal component.
    fn x(&self) -> i64;

    /// The vertical component.
    fn y(&self) -> i64;
}

impl Vector2Ext for Vector2 {
    fn x(&self) -> (r: i64)
        ensures
            r == self[0],
    {
        self[0]
    }

    fn y(&self) -> (r: i64)
        ensures
            r == self[1],
    {
        self[1]
    }
}

/// `v`, or the end of a component's range that `v` lies beyond.
pub open spec fn clamp(v: int) -> int {
    if v < i64::MIN {
        i64::MIN as int
    } else if v > i64::MAX {
        i64::MAX as int
    } else {
        v
    }
}

/// `n / d` rounded towards zero, for a positive `d`.
pub open spec fn div_toward_zero(n: int, d: int) -> int
    recommends
        d > 0,
{
    if n >= 0 {
        n / d
    } else {
        -((-n) / d)
    }
}

/// The product of the fixed-point numbers `a` and `t`: `a * t / UNIT`,
/// rounded towards zero.
pub open spec fn product(a: int, t: int) -> int {
    div_toward_zero(a * t, UNIT as int)
}

/// The quotient of the fixed-point numbers `a` and `t`: `a * UNIT / t`,
/// rounded towards zero, for a positive `t`.
pub open spec fn quotient(a: int, t: int) -> int
    recommends
        t > 0,
{
    div_toward_zero(a * UNIT, t)
}

/// The same number in 128 bits.
pub fn widen(v: i64) -> (r: i128)
    ensures
        r == v,
{
    v as i128
}

/// `v` as a component, saturated.
pub fn saturate(v: i128) -> (r: i64)
    ensures
        r == clamp(v as int),
{
    if v < i64::MIN as i128 {
        i64::MIN
    } else if v > i64::MAX as i128 {
        i64::MAX
    } else {
        v as i64
    }
}

/// The product of two components before it is divided and narrowed.
pub fn wide_product(a: i64, b: i64) -> (r: i128)
    ensures
        r == a * b,
{
    assert(-0x4000_0000_0000_0000_0000_0000_0000_0000 <= a * b
        <= 0x4000_0000_0000_0000_0000_0000_0000_0000) by (nonlinear_arith)
        requires
            -0x8000_0000_0000_0000 <= a <= 0x8000_0000_0000_0000,
            -0x8000_0000_0000_0000 <= b <= 0x8000_0000_0000_0000,
    ;
    widen(a) * widen(b)
}

/// `a + b`, saturated.
pub fn sum(a: i64, b: i64) -> (r: i64)
    ensures
        r == clamp(a + b),
{
    saturate(widen(a) + widen(b))
}

/// `a - b`, saturated.
pub fn difference(a: i64, b: i64) -> (r: i64)
    ensures
        r == clamp(a - b),
{
    saturate(widen(a) - widen(b))
}

/// The fixed-point product of `a` and `t`, saturated.
pub fn scale(a: i64, t: i64) -> (r: i64)
    ensures
        r == clamp(product(a as int, t as int)),
{
    saturate(wide_product(a, t) / 1000)
}

/// The fixed-point quotient of `a` and a positive `t`, saturated.
pub fn ratio(a: i64, t: i64) -> (r: i64)
    requires
        t > 0,
    ensures
        r == clamp(quotient(a as int, t as int)),
{
    saturate(wide_product(a, UNIT) / widen(t))
}

/// Component-wise sum, saturated.
pub fn vec2_add(a: Vector2, b: Vector2) -> (r: Vector2)
    ensures
        r[0] == clamp(a[0] + b[0]),
        r[1] == clamp(a[1] + b[1]),
{
    [sum(a[0], b[0]), sum(a[1], b[1])]
}

/// Component-wise difference, saturated.
pub fn vec2_sub(a: Vector2, b: Vector2) -> (r: Vector2)
    ensures
        r[0] == clamp(a[0] - b[0]),
        r[1] == clamp(a[1] - b[1]),
{
    [difference(a[0], b[0]), difference(a[1], b[1])]
}

/// Component-wise fixed-point product, saturated.
pub fn vec2_mul(a: Vector2, b: Vector2) -> (r: Vector2)
    ensures
        r[0] == clamp(product(a[0] as int, b[0] as int)),
        r[1] == clamp(product(a[1] as int, b[1] as int)),
{
    [scale(a[0], b[0]), scale(a[1], b[1])]
}

/// Every component multiplied by the fixed-point scalar `t`, saturated.
pub fn vec2_scale(a: Vector2, t: i64) -> (r: Vector2)
    ensures
        r[0] == clamp(product(a[0] as int, t as int)),
        r[1] == clamp(product(a[1] as int, t as int)),
{
    [scale(a[0], t), scale(a[1], t)]
}

} // verus!
