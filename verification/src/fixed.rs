//! Fixed-point scalars with six decimal places.
//!
//! A [`Fixed`] holds `raw` millionths of a unit. Sums, differences and products
//! saturate at the ends of the raw range; products and quotients round toward
//! zero, so negating an operand negates the result.

use vstd::prelude::*;

verus! {

/// Number of raw units in one whole unit.
pub const SCALE: i64 = 1_000_000;

/// The raw value nearest to `v`.
pub open spec fn clamp_raw(v: int) -> int {
    if v > i64::MAX {
        i64::MAX as int
    } else if v < i64::MIN {
        i64::MIN as int
    } else {
        v
    }
}

/// The quotient of `n` by a positive `d`, rounded toward zero.
pub open spec fn div_toward_zero(n: int, d: int) -> int
    recommends
        d > 0,
{
    if n >= 0 {
        n / d
    } else {
        -((-n) / d)
    }
}

/// Raw sum of two raw values.
pub open spec fn fixed_sum(a: int, b: int) -> int {
    clamp_raw(a + b)
}

/// Raw difference of two raw values.
pub open spec fn fixed_difference(a: int, b: int) -> int {
    clamp_raw(a - b)
}

/// Raw product of two raw values.
pub open spec fn fixed_product(a: int, b: int) -> int {
    clamp_raw(div_toward_zero(a * b, SCALE as int))
}

/// Raw quotient of two raw values, for a divisor other than zero.
pub open spec fn fixed_quotient(a: int, b: int) -> int
    recommends
        b != 0,
{
    if b > 0 {
        clamp_raw(div_toward_zero(a * SCALE, b))
    } else {
        clamp_raw(div_toward_zero(-(a * SCALE), -b))
    }
}

/// A fixed-point scalar; its view is the raw value.
#[derive(Clone, Copy, Debug, PartialEq, Eq, Structural)]
pub struct Fixed {
    pub raw: i64,
}

impl View for Fixed {
    type V = int;

    open spec fn view(&self) -> int {
        self.raw as int
    }
}

/// The product of two integers of magnitude at most `m` has magnitude at most `m * m`.
pub proof fn lemma_product_bound(a: int, b: int, m: int)
    requires
        -m <= a <= m,
        -m <= b <= m,
    ensures
        -(m * m) <= a * b <= m * m,
{
    assert(-(m * m) <= a * b <= m * m) by (nonlinear_arith)
        requires
            -m <= a <= m,
            -m <= b <= m,
    ;
}

/// The product of two scalars that are not negative is not negative.
pub proof fn lemma_product_not_negative(a: int, b: int)
    requires
        a >= 0,
        b >= 0,
    ensures
        fixed_product(a, b) >= 0,
{
    let s = SCALE as int;
    assert(a * b >= 0) by (nonlinear_arith)
        requires
            a >= 0,
            b >= 0,
    ;
    let p = a * b;
    assert(p / s >= 0) by (nonlinear_arith)
        requires
            p >= 0,
            s > 0,
    ;
}

/// A product with zero is zero.
pub proof fn lemma_product_with_zero(a: int)
    ensures
        fixed_product(a, 0) == 0,
        fixed_product(0, a) == 0,
{
    assert(a * 0 == 0 && 0 * a == 0) by (nonlinear_arith);
}

/// Narrows a wide intermediate to the raw range.
fn saturate(v: i128) -> (r: i64)
    ensures
        r == clamp_raw(v as int),
{
    if v > i64::MAX as i128 {
        i64::MAX
    } else if v < i64::MIN as i128 {
        i64::MIN
    } else {
        v as i64
    }
}

impl Fixed {
    /// The scalar with the given raw value.
    pub fn from_raw(raw: i64) -> (r: Fixed)
        ensures
            r@ == raw,
    {
        Fixed { raw }
    }

    /// The scalar nearest to a whole number of units.
    pub fn from_int(units: i64) -> (r: Fixed)
        ensures
            r@ == clamp_raw(units * SCALE),
    {
        proof {
            lemma_product_bound(units as int, SCALE as int, 0x8000_0000_0000_0000);
        }
        let wide: i128 = (units as i128) * (SCALE as i128);
        Fixed { raw: saturate(wide) }
    }

    /// Zero.
    pub fn zero() -> (r: Fixed)
        ensures
            r@ == 0,
    {
        Fixed { raw: 0 }
    }

    /// One whole unit.
    pub fn one() -> (r: Fixed)
        ensures
            r@ == SCALE,
    {
        Fixed { raw: SCALE }
    }

    /// The smallest positive scalar.
    pub fn epsilon() -> (r: Fixed)
        ensures
            r@ == 1,
    {
        Fixed { raw: 1 }
    }

    /// The raw value.
    pub fn raw(self) -> (r: i64)
        ensures
            r == self@,
    {
        self.raw
    }

    /// Saturating sum.
    pub fn plus(self, rhs: Fixed) -> (r: Fixed)
        ensures
            r@ == fixed_sum(self@, rhs@),
    {
        let wide: i128 = (self.raw as i128) + (rhs.raw as i128);
        Fixed { raw: saturate(wide) }
    }

    /// Saturating difference.
    pub fn minus(self, rhs: Fixed) -> (r: Fixed)
        ensures
            r@ == fixed_difference(self@, rhs@),
    {
        let wide: i128 = (self.raw as i128) - (rhs.raw as i128);
        Fixed { raw: saturate(wide) }
    }

    /// Saturating negation.
    pub fn negated(self) -> (r: Fixed)
        ensures
            r@ == clamp_raw(-self@),
    {
        let wide: i128 = -(self.raw as i128);
        Fixed { raw: saturate(wide) }
    }

    /// Saturating product, rounded toward zero.
    pub fn times(self, rhs: Fixed) -> (r: Fixed)
        ensures
            r@ == fixed_product(self@, rhs@),
    {
        proof {
            lemma_product_bound(self@, rhs@, 0x8000_0000_0000_0000);
        }
        let wide: i128 = (self.raw as i128) * (rhs.raw as i128);
        let scaled: i128 = wide / (SCALE as i128);
        Fixed { raw: saturate(scaled) }
    }

    /// Saturating quotient, rounded toward zero; `None` exactly when the divisor is zero.
    pub fn over(self, rhs: Fixed) -> (r: Option<Fixed>)
        ensures
            match r {
                Some(q) => rhs@ != 0 && q@ == fixed_quotient(self@, rhs@),
                None => rhs@ == 0,
            },
    {
        if rhs.raw == 0 {
            return None;
        }
        proof {
            lemma_product_bound(self@, SCALE as int, 0x8000_0000_0000_0000);
        }
        let wide: i128 = (self.raw as i128) * (SCALE as i128);
        let divisor: i128 = rhs.raw as i128;
        let scaled: i128 = if divisor > 0 {
            wide / divisor
        } else {
            (-wide) / (-divisor)
        };
        Some(Fixed { raw: saturate(scaled) })
    }

    /// The larger of the two scalars.
    pub fn at_least(self, low: Fixed) -> (r: Fixed)
        ensures
            r@ == if self@ >= low@ { self@ } else { low@ },
    {
        if self.raw >= low.raw {
            self
        } else {
            low
        }
    }
}

/// Whether `r` is the integer square root of `n`: the largest integer whose square is at most `n`.
pub open spec fn is_int_sqrt(n: int, r: int) -> bool {
    0 <= r && r * r <= n < (r + 1) * (r + 1)
}

/// The integer square root of a natural number.
pub open spec fn int_sqrt(n: int) -> int
    recommends
        n >= 0,
{
    choose|r: int| is_int_sqrt(n, r)
}

/// A number has at most one integer square root, so finding one finds `int_sqrt`.
pub proof fn lemma_int_sqrt_unique(n: int, r: int)
    requires
        is_int_sqrt(n, r),
    ensures
        int_sqrt(n) == r,
{
    let s = int_sqrt(n);
    assert(is_int_sqrt(n, s));
    if s < r {
        assert((s + 1) * (s + 1) <= r * r) by (nonlinear_arith)
            requires
                0 <= s,
                s + 1 <= r,
        ;
    } else if r < s {
        assert((r + 1) * (r + 1) <= s * s) by (nonlinear_arith)
            requires
                0 <= r,
                r + 1 <= s,
        ;
    }
}

/// Computes the integer square root by bisection.
pub fn integer_sqrt(n: u128) -> (r: u128)
    ensures
        is_int_sqrt(n as int, r as int),
        r == int_sqrt(n as int),
        r < 0x1_0000_0000_0000_0000,
{
    let mut low: u128 = 0;
    let mut high: u128 = 0x1_0000_0000_0000_0000;
    assert(n < high * high) by (nonlinear_arith)
        requires
            n <= u128::MAX,
            high == 0x1_0000_0000_0000_0000,
    ;
    while high - low > 1
        invariant
            low < high <= 0x1_0000_0000_0000_0000,
            low * low <= n < high * high,
        decreases high - low,
    {
        let mid: u128 = low + (high - low) / 2;
        assert(mid * mid <= 0xffff_ffff_ffff_ffff * 0xffff_ffff_ffff_ffff) by (nonlinear_arith)
            requires
                0 <= mid <= 0xffff_ffff_ffff_ffff,
        ;
        if mid * mid <= n {
            low = mid;
        } else {
            high = mid;
        }
    }
    proof {
        assert(high == low + 1);
        lemma_int_sqrt_unique(n as int, low as int);
    }
    low
}

} // verus!
