//! Three-component vectors of fixed-point scalars.
//!
//! The view of a [`Vec3`] is a [`V3`] of raw integers; the `v3_` functions say
//! over those integers what each operation computes.

use crate::fixed::{
    clamp_raw, div_toward_zero, fixed_difference, fixed_product, fixed_sum, int_sqrt,
    integer_sqrt, is_int_sqrt, lemma_product_bound, Fixed, SCALE,
};
use vstd::prelude::*;

verus! {

/// The raw components of a vector.
pub ghost struct V3 {
    pub x: int,
    pub y: int,
    pub z: int,
}

/// A vector of three fixed-point scalars.
#[derive(Clone, Copy, Debug, PartialEq, Eq, Structural)]
pub struct Vec3 {
    pub x: Fixed,
    pub y: Fixed,
    pub z: Fixed,
}

impl View for Vec3 {
    type V = V3;

    open spec fn view(&self) -> V3 {
        V3 { x: self.x@, y: self.y@, z: self.z@ }
    }
}

/// The view of an optional vector.
pub open spec fn lifted(v: Option<Vec3>) -> Option<V3> {
    match v {
        Some(u) => Some(u@),
        None => None,
    }
}

/// The zero vector.
pub open spec fn v3_zero() -> V3 {
    V3 { x: 0, y: 0, z: 0 }
}

/// Componentwise saturating sum.
pub open spec fn v3_sum(a: V3, b: V3) -> V3 {
    V3 { x: fixed_sum(a.x, b.x), y: fixed_sum(a.y, b.y), z: fixed_sum(a.z, b.z) }
}

/// Componentwise saturating difference.
pub open spec fn v3_difference(a: V3, b: V3) -> V3 {
    V3 {
        x: fixed_difference(a.x, b.x),
        y: fixed_difference(a.y, b.y),
        z: fixed_difference(a.z, b.z),
    }
}

/// Componentwise saturating negation.
pub open spec fn v3_negation(a: V3) -> V3 {
    V3 { x: clamp_raw(-a.x), y: clamp_raw(-a.y), z: clamp_raw(-a.z) }
}

/// Each component multiplied by the scalar `k`.
pub open spec fn v3_scaled(a: V3, k: int) -> V3 {
    V3 { x: fixed_product(a.x, k), y: fixed_product(a.y, k), z: fixed_product(a.z, k) }
}

/// Dot product: the three products are rounded one by one, then summed from `x` to `z`.
pub open spec fn v3_dot(a: V3, b: V3) -> int {
    fixed_sum(
        fixed_sum(fixed_product(a.x, b.x), fixed_product(a.y, b.y)),
        fixed_product(a.z, b.z),
    )
}

/// Cross product, right-handed.
pub open spec fn v3_cross(a: V3, b: V3) -> V3 {
    V3 {
        x: fixed_difference(fixed_product(a.y, b.z), fixed_product(a.z, b.y)),
        y: fixed_difference(fixed_product(a.z, b.x), fixed_product(a.x, b.z)),
        z: fixed_difference(fixed_product(a.x, b.y), fixed_product(a.y, b.x)),
    }
}

/// The exact sum of the squared raw components.
pub open spec fn v3_square_sum(a: V3) -> int {
    a.x * a.x + a.y * a.y + a.z * a.z
}

/// The raw length, before it is narrowed to a scalar.
pub open spec fn v3_raw_length(a: V3) -> int {
    int_sqrt(v3_square_sum(a))
}

/// The vector scaled to unit length, each component rounded toward zero; none for a
/// vector whose raw length is zero.
pub open spec fn v3_normalized(a: V3) -> Option<V3> {
    let len = v3_raw_length(a);
    if len == 0 {
        None
    } else {
        Some(
            V3 {
                x: div_toward_zero(a.x * SCALE, len),
                y: div_toward_zero(a.y * SCALE, len),
                z: div_toward_zero(a.z * SCALE, len),
            },
        )
    }
}

/// A component is no longer than the whole vector.
proof fn lemma_component_within_length(c: int, rest: int, len: int)
    requires
        rest >= 0,
        is_int_sqrt(c * c + rest, len),
    ensures
        -len <= c <= len,
{
    assert(-len <= c <= len) by (nonlinear_arith)
        requires
            0 <= len,
            rest >= 0,
            c * c + rest < (len + 1) * (len + 1),
    ;
}

/// A component divided by a length that bounds it stays within one unit.
proof fn lemma_unit_component(c: int, len: int)
    requires
        len > 0,
        -len <= c <= len,
    ensures
        -SCALE <= div_toward_zero(c * SCALE, len) <= SCALE,
{
    let s = SCALE as int;
    if c * s >= 0 {
        assert(0 <= (c * s) / len <= s) by (nonlinear_arith)
            requires
                len > 0,
                c <= len,
                c * s >= 0,
                s > 0,
        ;
    } else {
        let m = -(c * s);
        assert(0 <= m / len <= s) by (nonlinear_arith)
            requires
                len > 0,
                -len <= c,
                m == -(c * s),
                m > 0,
                s > 0,
        ;
    }
}

/// One component of a unit vector.
fn unit_component(c: Fixed, len: u128) -> (r: Fixed)
    requires
        0 < len < 0x1_0000_0000_0000_0000,
        -len <= c@ <= len,
    ensures
        r@ == div_toward_zero(c@ * SCALE, len as int),
{
    proof {
        lemma_product_bound(c@, SCALE as int, 0x8000_0000_0000_0000);
        lemma_unit_component(c@, len as int);
    }
    let wide: i128 = (c.raw as i128) * (SCALE as i128);
    let q: i128 = wide / (len as i128);
    Fixed { raw: q as i64 }
}

/// The square of a raw value.
fn square(c: Fixed) -> (r: u128)
    ensures
        r == c@ * c@,
        r <= 0x4000_0000_0000_0000_0000_0000_0000_0000,
{
    proof {
        lemma_product_bound(c@, c@, 0x8000_0000_0000_0000);
        assert(c@ * c@ >= 0) by (nonlinear_arith);
    }
    let wide: i128 = (c.raw as i128) * (c.raw as i128);
    wide as u128
}

impl Vec3 {
    /// The vector with the given components.
    pub fn new(x: Fixed, y: Fixed, z: Fixed) -> (r: Vec3)
        ensures
            r@ == (V3 { x: x@, y: y@, z: z@ }),
    {
        Vec3 { x, y, z }
    }

    /// The vector with the given raw components.
    pub fn from_raw(x: i64, y: i64, z: i64) -> (r: Vec3)
        ensures
            r@ == (V3 { x: x as int, y: y as int, z: z as int }),
    {
        Vec3 { x: Fixed { raw: x }, y: Fixed { raw: y }, z: Fixed { raw: z } }
    }

    /// The zero vector.
    pub fn zero() -> (r: Vec3)
        ensures
            r@ == v3_zero(),
    {
        Vec3::from_raw(0, 0, 0)
    }

    /// Componentwise saturating sum.
    pub fn plus(self, rhs: Vec3) -> (r: Vec3)
        ensures
            r@ == v3_sum(self@, rhs@),
    {
        Vec3 { x: self.x.plus(rhs.x), y: self.y.plus(rhs.y), z: self.z.plus(rhs.z) }
    }

    /// Componentwise saturating difference.
    pub fn minus(self, rhs: Vec3) -> (r: Vec3)
        ensures
            r@ == v3_difference(self@, rhs@),
    {
        Vec3 { x: self.x.minus(rhs.x), y: self.y.minus(rhs.y), z: self.z.minus(rhs.z) }
    }

    /// Componentwise saturating negation.
    pub fn negated(self) -> (r: Vec3)
        ensures
            r@ == v3_negation(self@),
    {
        Vec3 { x: self.x.negated(), y: self.y.negated(), z: self.z.negated() }
    }

    /// Each component multiplied by `k`.
    pub fn scaled(self, k: Fixed) -> (r: Vec3)
        ensures
            r@ == v3_scaled(self@, k@),
    {
        Vec3 { x: self.x.times(k), y: self.y.times(k), z: self.z.times(k) }
    }

    /// Dot product.
    pub fn dot(self, rhs: Vec3) -> (r: Fixed)
        ensures
            r@ == v3_dot(self@, rhs@),
    {
        self.x.times(rhs.x).plus(self.y.times(rhs.y)).plus(self.z.times(rhs.z))
    }

    /// Cross product.
    pub fn cross(self, rhs: Vec3) -> (r: Vec3)
        ensures
            r@ == v3_cross(self@, rhs@),
    {
        Vec3 {
            x: self.y.times(rhs.z).minus(self.z.times(rhs.y)),
            y: self.z.times(rhs.x).minus(self.x.times(rhs.z)),
            z: self.x.times(rhs.y).minus(self.y.times(rhs.x)),
        }
    }

    /// The raw length: the integer square root of the sum of the squared raw components.
    pub fn raw_length(self) -> (r: u128)
        ensures
            r == v3_raw_length(self@),
            is_int_sqrt(v3_square_sum(self@), r as int),
            r < 0x1_0000_0000_0000_0000,
    {
        let total: u128 = square(self.x) + square(self.y) + square(self.z);
        integer_sqrt(total)
    }

    /// The length as a scalar, saturated.
    pub fn length(self) -> (r: Fixed)
        ensures
            r@ == clamp_raw(v3_raw_length(self@)),
    {
        let len: u128 = self.raw_length();
        if len > i64::MAX as u128 {
            Fixed { raw: i64::MAX }
        } else {
            Fixed { raw: len as i64 }
        }
    }

    /// The vector scaled to unit length; `None` exactly when its raw length is zero.
    pub fn normalize(self) -> (r: Option<Vec3>)
        ensures
            lifted(r) == v3_normalized(self@),
            r is None <==> v3_raw_length(self@) == 0,
            r is Some ==> is_unit_bounded(r.unwrap()@),
    {
        let len: u128 = self.raw_length();
        if len == 0 {
            return None;
        }
        proof {
            let v = self@;
            assert(v.y * v.y >= 0 && v.z * v.z >= 0 && v.x * v.x >= 0) by (nonlinear_arith);
            lemma_component_within_length(v.x, v.y * v.y + v.z * v.z, len as int);
            lemma_component_within_length(v.y, v.x * v.x + v.z * v.z, len as int);
            lemma_component_within_length(v.z, v.x * v.x + v.y * v.y, len as int);
            lemma_unit_component(v.x, len as int);
            lemma_unit_component(v.y, len as int);
            lemma_unit_component(v.z, len as int);
        }
        Some(
            Vec3 {
                x: unit_component(self.x, len),
                y: unit_component(self.y, len),
                z: unit_component(self.z, len),
            },
        )
    }
}

/// Whether no component of the vector exceeds one unit in magnitude.
pub open spec fn is_unit_bounded(a: V3) -> bool {
    &&& -SCALE <= a.x <= SCALE
    &&& -SCALE <= a.y <= SCALE
    &&& -SCALE <= a.z <= SCALE
}

} // verus!
