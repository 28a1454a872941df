//! Decimal fixed-point numbers: every length, speed, time step, angle and
//! colour channel of the game is a whole number of thousandths.
use vstd::prelude::*;

verus! {

/// The number of raw units in one whole.
pub const SCALE: i64 = 1000;

/// A signed decimal number with three fractional digits. `raw` counts
/// thousandths: the number 0.8 is `Fixed { raw: 800 }`.
#[derive(Clone, Copy, Debug, PartialEq, Eq, Structural)]
pub struct Fixed {
    pub raw: i64,
}

/// Whether a count of thousandths can be held in a `Fixed`.
pub open spec fn fits(v: int) -> bool {
    i64::MIN <= v <= i64::MAX
}

/// The number with `v` thousandths, for a `v` that fits.
pub open spec fn fixed(v: int) -> Fixed {
    Fixed { raw: v as i64 }
}

/// The quotient of `a` by a positive `b`, rounded toward zero.
pub open spec fn quotient(a: int, b: int) -> int {
    if a >= 0 {
        a / b
    } else {
        -((-a) / b)
    }
}

/// The value of `low <= high` nearest to `v`.
pub open spec fn clamp(v: int, low: int, high: int) -> int {
    if v < low {
        low
    } else if v > high {
        high
    } else {
        v
    }
}

/// The product of two numbers in thousandths, rounded toward zero.
pub open spec fn product(a: Fixed, b: Fixed) -> int {
    quotient(a.raw * b.raw, SCALE as int)
}

/// A quotient by a positive divisor lies between zero and the dividend,
/// and so does the quotient times the divisor.
pub proof fn quotient_bounds(a: int, b: int)
    requires
        b > 0,
    ensures
        a >= 0 ==> 0 <= quotient(a, b) <= quotient(a, b) * b <= a,
        a <= 0 ==> a <= quotient(a, b) * b <= quotient(a, b) <= 0,
{
    if a >= 0 {
        let q = a / b;
        assert(0 <= q <= q * b <= a) by (nonlinear_arith)
            requires
                a >= 0,
                b > 0,
                q == a / b,
        ;
    } else {
        let m = -a;
        let q = m / b;
        assert(0 <= q <= q * b <= m) by (nonlinear_arith)
            requires
                m >= 0,
                b > 0,
                q == m / b,
        ;
        assert((-q) * b == -(q * b)) by (nonlinear_arith);
    }
}

/// The product by a whole number is exact: nothing is rounded away.
pub proof fn product_by_whole_is_exact(whole: Fixed, n: int, other: Fixed)
    requires
        whole.raw == n * SCALE,
    ensures
        product(whole, other) == n * other.raw,
        product(other, whole) == n * other.raw,
{
    let p = n * other.raw;
    assert(whole.raw * other.raw == p * 1000 && other.raw * whole.raw == p * 1000)
        by (nonlinear_arith)
        requires
            whole.raw == n * 1000,
            p == n * other.raw,
    ;
    if p >= 0 {
        assert((p * 1000) / 1000 == p);
    } else {
        assert(-(p * 1000) == (-p) * 1000);
        assert(((-p) * 1000) / 1000 == -p);
    }
}

/// Rounding toward zero treats both signs alike: the product with an
/// opposite number is the opposite product.
pub proof fn product_of_opposite(a: Fixed, b: Fixed, opposite: Fixed)
    requires
        opposite.raw == -a.raw,
    ensures
        product(opposite, b) == -product(a, b),
        product(b, opposite) == -product(b, a),
{
    assert(opposite.raw * b.raw == -(a.raw * b.raw) && b.raw * opposite.raw == -(b.raw * a.raw))
        by (nonlinear_arith)
        requires
            opposite.raw == -a.raw,
    ;
}

impl Fixed {
    /// The number with the given count of thousandths.
    pub fn from_raw(raw: i64) -> (r: Fixed)
        ensures
            r.raw == raw,
    {
        Fixed { raw }
    }

    /// The whole number `n`.
    pub fn from_int(n: i32) -> (r: Fixed)
        ensures
            r.raw == n * SCALE,
    {
        Fixed { raw: (n as i64) * SCALE }
    }

    /// The whole number `n`.
    pub fn from_u32(n: u32) -> (r: Fixed)
        ensures
            r.raw == n * SCALE,
    {
        Fixed { raw: (n as i64) * SCALE }
    }

    /// Zero.
    pub fn zero() -> (r: Fixed)
        ensures
            r.raw == 0,
    {
        Fixed { raw: 0 }
    }

    /// The number with the opposite sign.
    pub fn negated(self) -> (r: Fixed)
        requires
            fits(-self.raw),
        ensures
            r.raw == -self.raw,
    {
        Fixed { raw: -self.raw }
    }

    /// The difference `self - other`.
    pub fn minus(self, other: Fixed) -> (r: Fixed)
        requires
            fits(self.raw - other.raw),
        ensures
            r.raw == self.raw - other.raw,
    {
        Fixed { raw: self.raw - other.raw }
    }

    /// `count` times this number.
    pub fn times(self, count: usize) -> (r: Fixed)
        requires
            fits(self.raw * count),
        ensures
            r.raw == self.raw * count,
    {
        let wide: i128 = self.raw as i128;
        let n: i128 = count as i128;
        assert(-0x8000_0000_0000_0000_0000_0000_0000_0000 <= wide * n
            <= 0x7fff_ffff_ffff_ffff_ffff_ffff_ffff_ffff) by (nonlinear_arith)
            requires
                -0x8000_0000_0000_0000 <= wide <= 0x7fff_ffff_ffff_ffff,
                0 <= n <= 0xffff_ffff_ffff_ffff,
        ;
        let p: i128 = wide * n;
        Fixed { raw: p as i64 }
    }

    /// This number divided into `parts` equal parts, rounded toward zero.
    pub fn per(self, parts: usize) -> (r: Fixed)
        requires
            parts > 0,
        ensures
            r.raw == quotient(self.raw as int, parts as int),
    {
        let wide: i128 = self.raw as i128;
        let n: i128 = parts as i128;
        proof {
            quotient_bounds(self.raw as int, parts as int);
        }
        let q: i128 = wide / n;
        Fixed { raw: q as i64 }
    }

    /// The exact count of thousandths of `self * other`, rounded toward
    /// zero, in a type wide enough for every pair.
    pub fn wide_product(self, other: Fixed) -> (r: i128)
        ensures
            r == product(self, other),
            -0x4000_0000_0000_0000_0000_0000_0000_0000 <= r <= 0x4000_0000_0000_0000_0000_0000_0000_0000,
    {
        let a: i128 = self.raw as i128;
        let b: i128 = other.raw as i128;
        assert(-0x4000_0000_0000_0000_0000_0000_0000_0000 <= a * b
            <= 0x4000_0000_0000_0000_0000_0000_0000_0000) by (nonlinear_arith)
            requires
                -0x8000_0000_0000_0000 <= a <= 0x7fff_ffff_ffff_ffff,
                -0x8000_0000_0000_0000 <= b <= 0x7fff_ffff_ffff_ffff,
        ;
        let p: i128 = a * b;
        proof {
            quotient_bounds(p as int, SCALE as int);
        }
        p / (SCALE as i128)
    }

    /// The exact count of thousandths of `self + rate * dt`: where a point
    /// at `self` that moves at `rate` is after the time `dt`.
    pub fn advanced(self, rate: Fixed, dt: Fixed) -> (r: i128)
        ensures
            r == self.raw + product(rate, dt),
            -0x4000_0000_0000_0000_8000_0000_0000_0000 <= r <= 0x4000_0000_0000_0000_8000_0000_0000_0000,
    {
        let step: i128 = rate.wide_product(dt);
        (self.raw as i128) + step
    }
}

} // verus!
