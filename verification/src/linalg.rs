//! Exact fixed-point linear algebra for the 4-dimensional scene.
//!
//! A scalar is an `i128` holding the real quantity times [`UNIT`]. All
//! operations are exact integer arithmetic; the bound constants below are the
//! machine limits under which every intermediate product provably fits in an
//! `i128`.

use vstd::prelude::*;

verus! {

/// The fixed-point unit: an `i128` scalar holds the real quantity times this.
pub const UNIT: i128 = 1_000_000;

/// Largest magnitude of a point or translation coordinate (1000 units).
pub const COORD_BOUND: i128 = 1_000_000_000;

/// Largest magnitude of a rotation-matrix entry or of a sine/cosine value
/// (2 units; honest rotation entries stay within 1 unit).
pub const ROT_BOUND: i128 = 2_000_000;

/// Largest magnitude of the field-of-view tangent (100 units).
pub const FOV_BOUND: i128 = 100_000_000;

/// Largest magnitude of a slice or screen half-extent (10 units).
pub const EXTENT_BOUND: i128 = 10_000_000;

/// Largest magnitude of a half-space coefficient (100 units).
pub const COEFF_BOUND: i128 = 100_000_000;

/// Largest magnitude of a half-space offset. Offsets are scaled by
/// `UNIT * UNIT` (they pair with products of a coefficient and a coordinate),
/// so this leaves room for offsets moved by nested translations.
pub const OFFSET_BOUND: i128 = 1_000_000_000_000_000_000;

/// `x` lies in the closed interval `[-b, b]`.
pub open spec fn in_range(x: int, b: int) -> bool {
    -b <= x <= b
}

/// A point or direction in the 4-dimensional world.
///
/// Axes 0, 1 and 2 span the subspace the horizontal rotation acts on
/// (axis 2 is the camera's forward axis); axis 3 is the hidden axis, whose
/// camera-relative coordinate selects the visible slice.
#[derive(Clone, Copy, PartialEq, Eq, Structural, Debug)]
pub struct Vec4 {
    pub c0: i128,
    pub c1: i128,
    pub c2: i128,
    pub c3: i128,
}

/// An affine row functional on 4-dimensional points: `a . x + b`.
///
/// Used both for half-space constraints (a point is inside the half-space
/// when the row evaluates non-positive) and for the rows of the camera's
/// projection matrix.
#[derive(Clone, Copy, PartialEq, Eq, Structural, Debug)]
pub struct Row5 {
    pub a0: i128,
    pub a1: i128,
    pub a2: i128,
    pub a3: i128,
    pub b: i128,
}

/// A 3x3 matrix block: a rotation of the subspace spanned by axes 0, 1, 2.
#[derive(Clone, Copy, PartialEq, Eq, Structural, Debug)]
pub struct Mat3 {
    pub m00: i128,
    pub m01: i128,
    pub m02: i128,
    pub m10: i128,
    pub m11: i128,
    pub m12: i128,
    pub m20: i128,
    pub m21: i128,
    pub m22: i128,
}

pub open spec fn vec4_in_range(v: Vec4, b: int) -> bool {
    &&& in_range(v.c0 as int, b)
    &&& in_range(v.c1 as int, b)
    &&& in_range(v.c2 as int, b)
    &&& in_range(v.c3 as int, b)
}

pub open spec fn row_in_range(r: Row5, cb: int, ob: int) -> bool {
    &&& in_range(r.a0 as int, cb)
    &&& in_range(r.a1 as int, cb)
    &&& in_range(r.a2 as int, cb)
    &&& in_range(r.a3 as int, cb)
    &&& in_range(r.b as int, ob)
}

pub open spec fn mat3_in_range(m: Mat3, b: int) -> bool {
    &&& in_range(m.m00 as int, b)
    &&& in_range(m.m01 as int, b)
    &&& in_range(m.m02 as int, b)
    &&& in_range(m.m10 as int, b)
    &&& in_range(m.m11 as int, b)
    &&& in_range(m.m12 as int, b)
    &&& in_range(m.m20 as int, b)
    &&& in_range(m.m21 as int, b)
    &&& in_range(m.m22 as int, b)
}

/// The affine functional `a . x + b` on explicit integer components.
pub open spec fn apply5(
    a0: int,
    a1: int,
    a2: int,
    a3: int,
    b: int,
    x0: int,
    x1: int,
    x2: int,
    x3: int,
) -> int {
    a0 * x0 + a1 * x1 + a2 * x2 + a3 * x3 + b
}

/// The value of a row functional at a point.
pub open spec fn row_apply(r: Row5, p: Vec4) -> int {
    apply5(
        r.a0 as int,
        r.a1 as int,
        r.a2 as int,
        r.a3 as int,
        r.b as int,
        p.c0 as int,
        p.c1 as int,
        p.c2 as int,
        p.c3 as int,
    )
}

/// Division truncating toward zero (the rounding used when a product of two
/// fixed-point scalars is brought back to the `UNIT` scale).
pub open spec fn trunc_div_unit(a: int) -> int {
    if a >= 0 {
        a / (UNIT as int)
    } else {
        -((-a) / (UNIT as int))
    }
}

/// Largest magnitude accepted by [`div_unit`].
pub const DIV_BOUND: i128 = 1_000_000_000_000_000_000_000_000_000_000;

/// Brings a `UNIT^2`-scaled product back to the `UNIT` scale, truncating
/// toward zero.
pub fn div_unit(a: i128) -> (q: i128)
    requires
        in_range(a as int, DIV_BOUND as int),
    ensures
        q as int == trunc_div_unit(a as int),
{
    if a >= 0 {
        a / UNIT
    } else {
        -((-a) / UNIT)
    }
}

/// A product of values bounded by `a` and `b` is bounded by `a * b`.
pub proof fn lemma_abs_mul(x: int, y: int, a: int, b: int)
    by (nonlinear_arith)
    requires
        -a <= x <= a,
        -b <= y <= b,
        0 <= a,
    ensures
        -(a * b) <= x * y <= a * b,
{
}

/// Componentwise sum of two points (a translation applied to a point).
pub fn vec4_add(a: &Vec4, b: &Vec4) -> (r: Vec4)
    requires
        in_range(a.c0 + b.c0, COORD_BOUND as int),
        in_range(a.c1 + b.c1, COORD_BOUND as int),
        in_range(a.c2 + b.c2, COORD_BOUND as int),
        in_range(a.c3 + b.c3, COORD_BOUND as int),
    ensures
        r.c0 == a.c0 + b.c0,
        r.c1 == a.c1 + b.c1,
        r.c2 == a.c2 + b.c2,
        r.c3 == a.c3 + b.c3,
        vec4_in_range(r, COORD_BOUND as int),
{
    Vec4 { c0: a.c0 + b.c0, c1: a.c1 + b.c1, c2: a.c2 + b.c2, c3: a.c3 + b.c3 }
}

/// Evaluates a row functional at a point, exactly.
pub fn row_eval(r: &Row5, p: &Vec4) -> (v: i128)
    requires
        row_in_range(*r, COEFF_BOUND as int, OFFSET_BOUND as int),
        vec4_in_range(*p, COORD_BOUND as int),
    ensures
        v as int == row_apply(*r, *p),
        in_range(
            v as int,
            4 * (COEFF_BOUND as int) * (COORD_BOUND as int) + (OFFSET_BOUND as int),
        ),
{
    proof {
        lemma_abs_mul(r.a0 as int, p.c0 as int, COEFF_BOUND as int, COORD_BOUND as int);
        lemma_abs_mul(r.a1 as int, p.c1 as int, COEFF_BOUND as int, COORD_BOUND as int);
        lemma_abs_mul(r.a2 as int, p.c2 as int, COEFF_BOUND as int, COORD_BOUND as int);
        lemma_abs_mul(r.a3 as int, p.c3 as int, COEFF_BOUND as int, COORD_BOUND as int);
    }
    r.a0 * p.c0 + r.a1 * p.c1 + r.a2 * p.c2 + r.a3 * p.c3 + r.b
}

} // verus!
