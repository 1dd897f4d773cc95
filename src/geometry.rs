//! Mapping pointer positions onto timelines.
//!
//! A fraction is an integer where `FRACTION_SCALE` is the whole timeline. The
//! vector timeline surface is measured in milli-units: its width of one hundred
//! units is `SURFACE_WIDTH`.

use vstd::prelude::*;

verus! {

/// One whole timeline, as a fraction (parts per million).
pub const FRACTION_SCALE: i64 = 1_000_000;

/// Width of the vector timeline surface, in milli-units.
pub const SURFACE_WIDTH: i64 = 100_000;

/// `n / d` rounded down, for a positive `d`.
pub open spec fn floor_div(n: int, d: int) -> int
    recommends
        d > 0,
{
    n / d
}

/// The fraction of the way from `start` to `start + width` at which `x` lies,
/// rounded down; not clamped, so it is negative left of `start` and above
/// `FRACTION_SCALE` past the far end.
pub open spec fn span_fraction(x: int, start: int, width: int) -> int {
    floor_div(FRACTION_SCALE * (x - start), width)
}

/// Division rounded down, for a positive divisor.
pub fn div_floor(n: i128, d: i128) -> (r: i128)
    requires
        d > 0,
    ensures
        r == floor_div(n as int, d as int),
{
    if n >= 0 {
        n / d
    } else {
        let m: i128 = -(n + 1);
        let q: i128 = m / d;
        proof {
            lemma_floor_of_negative(n as int, d as int, q as int);
        }
        -q - 1
    }
}

proof fn lemma_floor_of_negative(n: int, d: int, q: int)
    requires
        n < 0,
        d > 0,
        q == (-(n + 1)) / d,
    ensures
        n / d == -q - 1,
{
    let m = -(n + 1);
    let r = m % d;
    vstd::arithmetic::div_mod::lemma_fundamental_div_mod(m, d);
    assert(m == d * q + r);
    assert(0 <= r < d);
    assert(n == d * (-q - 1) + (d - 1 - r)) by (nonlinear_arith)
        requires
            m == d * q + r,
            m == -(n + 1),
    ;
    vstd::arithmetic::div_mod::lemma_fundamental_div_mod_converse(n, d, -q - 1, d - 1 - r);
}

/// Linear (bounding-box) mapping: where a pointer at horizontal position
/// `pointer_x` falls along an element whose box starts at `left` and is
/// `width` wide, as a fraction. The element must be measurable (`width > 0`);
/// the result is not clamped.
pub fn pointer_fraction(pointer_x: i32, left: i32, width: i32) -> (r: i64)
    requires
        width > 0,
    ensures
        r == span_fraction(pointer_x as int, left as int, width as int),
{
    let offset: i128 = pointer_x as i128 - left as i128;
    assert(-0x1_0000_0000 * FRACTION_SCALE <= FRACTION_SCALE * offset <= 0x1_0000_0000 * FRACTION_SCALE)
        by (nonlinear_arith)
        requires
            -0x1_0000_0000 <= offset <= 0x1_0000_0000,
    ;
    let q = div_floor(FRACTION_SCALE as i128 * offset, width as i128);
    proof {
        lemma_quotient_bounds(FRACTION_SCALE * offset, width as int, 1, 0x1_0000_0000 * FRACTION_SCALE);
    }
    q as i64
}

/// A quotient by at least `m` of a numerator within `b * m` of zero lies
/// within `b` of zero.
pub proof fn lemma_quotient_bounds(n: int, d: int, m: int, b: int)
    requires
        d >= m > 0,
        b >= 0,
        -(b * m) <= n <= b * m,
    ensures
        -b <= floor_div(n, d) <= b,
{
    vstd::arithmetic::div_mod::lemma_fundamental_div_mod(n, d);
    let q = n / d;
    let r = n % d;
    assert(-b <= q <= b) by (nonlinear_arith)
        requires
            n == d * q + r,
            0 <= r < d,
            d >= m > 0,
            b >= 0,
            -(b * m) <= n <= b * m,
    ;
}

} // verus!
