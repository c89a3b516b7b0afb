//! The four-dimensional camera: pose, orientation and projection algebra.
//!
//! Orientation decomposes into two independent degrees of freedom:
//! - a *horizontal* rotation, acting on the subspace spanned by axes 0, 1, 2
//!   and leaving the hidden axis 3 fixed, accumulated multiplicatively from
//!   pointer input (the host keeps the unit quaternion — transcendental
//!   floating-point work — and supplies the fixed-point rotation block);
//! - a *vertical* tilt, a single signed angle rotating the hidden axis 3
//!   against the forward axis 2, accumulated additively and clamped to
//!   [-90, +90] degrees so the look direction can never invert.
//!
//! [`FourCamera::projection_matrix`] composes `scale . R^-1 . T`: the three
//! visible output rows receive the field-of-view tangent, while the remaining
//! row is passed through with a sign flip and yields the hidden-axis slice
//! coordinate as a linear signed distance — never perspective-scaled, and
//! untouched by horizontal rotation or field of view.

use vstd::prelude::*;

use crate::linalg::{
    in_range, mat3_in_range, row_apply, row_in_range, vec4_in_range, Mat3, Row5, Vec4,
    COORD_BOUND, FOV_BOUND, ROT_BOUND, UNIT,
};

verus! {

/// Vertical tilt limit: 90 degrees, in microdegrees.
pub const TILT_LIMIT: i64 = 90_000_000;

/// Bound on an entry of the four first columns of a projection row.
pub const PROJ_ROW_BOUND: i128 = 400_000_000_000_000_000_000;

/// Bound on the translation entry (last column) of a projection row.
pub const PROJ_OFF_BOUND: i128 = 1_600_000_000_000_000_000_000_000_000_000;

/// The camera's two rotational degrees of freedom.
#[derive(Clone, Copy, PartialEq, Eq, Structural, Debug)]
pub struct Orientation {
    /// Vertical tilt in microdegrees, always within [-90, +90] degrees.
    pub vertical: i64,
    /// Horizontal rotation block on axes 0, 1, 2, `UNIT`-scaled.
    pub horizontal: Mat3,
}

pub open spec fn orientation_wf(o: Orientation) -> bool {
    &&& -TILT_LIMIT <= o.vertical <= TILT_LIMIT
    &&& mat3_in_range(o.horizontal, ROT_BOUND as int)
}

/// The tilt angle an update leaves behind: the sum, clamped to the limits.
pub open spec fn clamp_tilt(v: int) -> int {
    if v > TILT_LIMIT {
        TILT_LIMIT as int
    } else if v < -TILT_LIMIT {
        -(TILT_LIMIT as int)
    } else {
        v
    }
}

/// The tilt angle left after a whole sequence of tilt updates.
pub open spec fn apply_tilts(v0: int, ds: Seq<i64>) -> int
    decreases ds.len(),
{
    if ds.len() == 0 {
        v0
    } else {
        apply_tilts(clamp_tilt(v0 + ds[0]), ds.skip(1))
    }
}

impl Default for Orientation {
    /// Identity orientation: no tilt, identity horizontal rotation.
    fn default() -> (o: Self)
        ensures
            o.vertical == 0,
            o.horizontal == (Mat3 {
                m00: UNIT,
                m01: 0,
                m02: 0,
                m10: 0,
                m11: UNIT,
                m12: 0,
                m20: 0,
                m21: 0,
                m22: UNIT,
            }),
            orientation_wf(o),
    {
        Orientation {
            vertical: 0,
            horizontal: Mat3 {
                m00: UNIT,
                m01: 0,
                m02: 0,
                m10: 0,
                m11: UNIT,
                m12: 0,
                m20: 0,
                m21: 0,
                m22: UNIT,
            },
        }
    }
}

impl Orientation {
    /// Accumulates a vertical tilt update, clamping the angle to
    /// [-90, +90] degrees (the gimbal-style safety clamp).
    pub fn tilt(&mut self, delta: i64)
        requires
            orientation_wf(*old(self)),
        ensures
            orientation_wf(*final(self)),
            final(self).vertical as int == clamp_tilt(old(self).vertical + delta),
            final(self).horizontal == old(self).horizontal,
    {
        let sum: i128 = self.vertical as i128 + delta as i128;
        let clamped: i128 = if sum > TILT_LIMIT as i128 {
            TILT_LIMIT as i128
        } else if sum < -(TILT_LIMIT as i128) {
            -(TILT_LIMIT as i128)
        } else {
            sum
        };
        self.vertical = clamped as i64;
    }

    /// Replaces the horizontal rotation with the freshly accumulated block.
    /// The host multiplies the per-frame pointer increment into its unit
    /// quaternion and hands the resulting rotation matrix back here.
    pub fn set_heading(&mut self, h: Mat3)
        requires
            mat3_in_range(h, ROT_BOUND as int),
            orientation_wf(*old(self)),
        ensures
            orientation_wf(*final(self)),
            final(self).horizontal == h,
            final(self).vertical == old(self).vertical,
    {
        self.horizontal = h;
    }
}

/// Law: after any sequence of tilt updates, the vertical angle lies within
/// [-90, +90] degrees inclusive.
pub proof fn lemma_tilt_always_clamped(v0: int, ds: Seq<i64>)
    requires
        -TILT_LIMIT <= v0 <= TILT_LIMIT,
    ensures
        -TILT_LIMIT <= apply_tilts(v0, ds) <= TILT_LIMIT,
    decreases ds.len(),
{
    if ds.len() > 0 {
        lemma_tilt_always_clamped(clamp_tilt(v0 + ds[0]), ds.skip(1));
    }
}

/// The four-dimensional camera: position, orientation and field of view.
#[derive(Clone, Copy, PartialEq, Eq, Structural, Debug)]
pub struct FourCamera {
    pub position: Vec4,
    pub orientation: Orientation,
    /// Tangent of half the field-of-view angle, `UNIT`-scaled.
    pub fov_tan: i128,
}

pub open spec fn camera_wf(c: FourCamera) -> bool {
    &&& vec4_in_range(c.position, COORD_BOUND as int)
    &&& orientation_wf(c.orientation)
    &&& 0 < c.fov_tan <= FOV_BOUND
}

impl Default for FourCamera {
    /// Camera at the origin, identity orientation, field-of-view tangent 1.
    fn default() -> (c: Self)
        ensures
            c.position == (Vec4 { c0: 0, c1: 0, c2: 0, c3: 0 }),
            c.fov_tan == UNIT,
            c.orientation.vertical == 0,
            camera_wf(c),
    {
        FourCamera {
            position: Vec4 { c0: 0, c1: 0, c2: 0, c3: 0 },
            orientation: Orientation::default(),
            fov_tan: UNIT,
        }
    }
}

/// Shape of a visible (perspective-scaled) projection row: `t` is the
/// field-of-view tangent, `(g0, g1, g2)` the matching column of the
/// horizontal block (a row of its transpose, the inverse rotation), and
/// `(vs, vc)` the sine and cosine of the vertical tilt. The last entry
/// translates by minus the camera position `p`.
pub open spec fn is_vis_row(
    r: Row5,
    t: int,
    g0: int,
    g1: int,
    g2: int,
    vs: int,
    vc: int,
    p: Vec4,
) -> bool {
    &&& r.a0 == t * (g0 * UNIT)
    &&& r.a1 == t * (g1 * UNIT)
    &&& r.a2 == t * (g2 * vc)
    &&& r.a3 == t * (g2 * vs)
    &&& r.b == -(r.a0 * p.c0 + r.a1 * p.c1 + r.a2 * p.c2 + r.a3 * p.c3)
}

/// Shape of the hidden-axis projection row: no field-of-view factor, no
/// horizontal-rotation entry — only the vertical tilt `(vs, vc)` and the
/// camera position appear, and the row is sign-flipped rather than scaled.
pub open spec fn is_hidden_row(r: Row5, vs: int, vc: int, p: Vec4) -> bool {
    &&& r.a0 == 0
    &&& r.a1 == 0
    &&& r.a2 == UNIT * (UNIT * vs)
    &&& r.a3 == -(UNIT * (UNIT * vc))
    &&& r.b == -(r.a2 * p.c2 + r.a3 * p.c3)
}

/// The camera's linear map from homogeneous 4-dimensional world points to
/// camera space: rows 0, 1, 2 are the perspective-scaled visible axes, row 3
/// the hidden-axis slice coordinate.
#[derive(Clone, Copy, PartialEq, Eq, Structural, Debug)]
pub struct Proj {
    pub r0: Row5,
    pub r1: Row5,
    pub r2: Row5,
    pub r3: Row5,
}

pub open spec fn proj_wf(m: Proj) -> bool {
    &&& row_in_range(m.r0, PROJ_ROW_BOUND as int, PROJ_OFF_BOUND as int)
    &&& row_in_range(m.r1, PROJ_ROW_BOUND as int, PROJ_OFF_BOUND as int)
    &&& row_in_range(m.r2, PROJ_ROW_BOUND as int, PROJ_OFF_BOUND as int)
    &&& row_in_range(m.r3, PROJ_ROW_BOUND as int, PROJ_OFF_BOUND as int)
}

impl FourCamera {
    /// The per-frame linear map `scale . R^-1 . T`, where `scale` applies
    /// the field-of-view tangent to the three visible rows and passes the
    /// hidden row through with a sign flip, `R^-1` undoes the vertical tilt
    /// and then the horizontal rotation, and `T` translates by minus the
    /// camera position.
    ///
    /// The caller supplies `vsin` and `vcos`, the `UNIT`-scaled sine and
    /// cosine of `self.orientation.vertical` (a transcendental evaluation
    /// the host performs); every clause below is exact in terms of them.
    /// Output rows are scaled by `UNIT^3` relative to the input scalars.
    pub fn projection_matrix(&self, vsin: i128, vcos: i128) -> (m: Proj)
        requires
            camera_wf(*self),
            in_range(vsin as int, ROT_BOUND as int),
            in_range(vcos as int, ROT_BOUND as int),
        ensures
            is_vis_row(
                m.r0,
                self.fov_tan as int,
                self.orientation.horizontal.m00 as int,
                self.orientation.horizontal.m10 as int,
                self.orientation.horizontal.m20 as int,
                vsin as int,
                vcos as int,
                self.position,
            ),
            is_vis_row(
                m.r1,
                self.fov_tan as int,
                self.orientation.horizontal.m01 as int,
                self.orientation.horizontal.m11 as int,
                self.orientation.horizontal.m21 as int,
                vsin as int,
                vcos as int,
                self.position,
            ),
            is_vis_row(
                m.r2,
                self.fov_tan as int,
                self.orientation.horizontal.m02 as int,
                self.orientation.horizontal.m12 as int,
                self.orientation.horizontal.m22 as int,
                vsin as int,
                vcos as int,
                self.position,
            ),
            is_hidden_row(m.r3, vsin as int, vcos as int, self.position),
            proj_wf(m),
    {
        let r0 = vis_row(
            self.fov_tan,
            self.orientation.horizontal.m00,
            self.orientation.horizontal.m10,
            self.orientation.horizontal.m20,
            vsin,
            vcos,
            &self.position,
        );
        let r1 = vis_row(
            self.fov_tan,
            self.orientation.horizontal.m01,
            self.orientation.horizontal.m11,
            self.orientation.horizontal.m21,
            vsin,
            vcos,
            &self.position,
        );
        let r2 = vis_row(
            self.fov_tan,
            self.orientation.horizontal.m02,
            self.orientation.horizontal.m12,
            self.orientation.horizontal.m22,
            vsin,
            vcos,
            &self.position,
        );
        let r3 = hidden_row(vsin, vcos, &self.position);
        Proj { r0, r1, r2, r3 }
    }
}

/// Builds one visible projection row; see [`is_vis_row`].
fn vis_row(t: i128, g0: i128, g1: i128, g2: i128, vs: i128, vc: i128, p: &Vec4) -> (r: Row5)
    requires
        0 < t <= FOV_BOUND,
        in_range(g0 as int, ROT_BOUND as int),
        in_range(g1 as int, ROT_BOUND as int),
        in_range(g2 as int, ROT_BOUND as int),
        in_range(vs as int, ROT_BOUND as int),
        in_range(vc as int, ROT_BOUND as int),
        vec4_in_range(*p, COORD_BOUND as int),
    ensures
        is_vis_row(r, t as int, g0 as int, g1 as int, g2 as int, vs as int, vc as int, *p),
        row_in_range(r, PROJ_ROW_BOUND as int, PROJ_OFF_BOUND as int),
{
    proof {
        crate::linalg::lemma_abs_mul(
            t as int,
            g0 as int * UNIT as int,
            FOV_BOUND as int,
            ROT_BOUND as int * UNIT as int,
        );
        crate::linalg::lemma_abs_mul(
            t as int,
            g1 as int * UNIT as int,
            FOV_BOUND as int,
            ROT_BOUND as int * UNIT as int,
        );
        crate::linalg::lemma_abs_mul(g2 as int, vc as int, ROT_BOUND as int, ROT_BOUND as int);
        crate::linalg::lemma_abs_mul(g2 as int, vs as int, ROT_BOUND as int, ROT_BOUND as int);
        crate::linalg::lemma_abs_mul(
            t as int,
            g2 as int * vc as int,
            FOV_BOUND as int,
            ROT_BOUND as int * ROT_BOUND as int,
        );
        crate::linalg::lemma_abs_mul(
            t as int,
            g2 as int * vs as int,
            FOV_BOUND as int,
            ROT_BOUND as int * ROT_BOUND as int,
        );
    }
    let a0 = t * (g0 * UNIT);
    let a1 = t * (g1 * UNIT);
    let a2 = t * (g2 * vc);
    let a3 = t * (g2 * vs);
    proof {
        crate::linalg::lemma_abs_mul(a0 as int, p.c0 as int, PROJ_ROW_BOUND as int, COORD_BOUND as int);
        crate::linalg::lemma_abs_mul(a1 as int, p.c1 as int, PROJ_ROW_BOUND as int, COORD_BOUND as int);
        crate::linalg::lemma_abs_mul(a2 as int, p.c2 as int, PROJ_ROW_BOUND as int, COORD_BOUND as int);
        crate::linalg::lemma_abs_mul(a3 as int, p.c3 as int, PROJ_ROW_BOUND as int, COORD_BOUND as int);
    }
    let b = -(a0 * p.c0 + a1 * p.c1 + a2 * p.c2 + a3 * p.c3);
    Row5 { a0, a1, a2, a3, b }
}

/// Builds the hidden-axis projection row; see [`is_hidden_row`].
fn hidden_row(vs: i128, vc: i128, p: &Vec4) -> (r: Row5)
    requires
        in_range(vs as int, ROT_BOUND as int),
        in_range(vc as int, ROT_BOUND as int),
        vec4_in_range(*p, COORD_BOUND as int),
    ensures
        is_hidden_row(r, vs as int, vc as int, *p),
        row_in_range(r, PROJ_ROW_BOUND as int, PROJ_OFF_BOUND as int),
{
    let a2 = UNIT * (UNIT * vs);
    let a3 = -(UNIT * (UNIT * vc));
    proof {
        crate::linalg::lemma_abs_mul(a2 as int, p.c2 as int, PROJ_ROW_BOUND as int, COORD_BOUND as int);
        crate::linalg::lemma_abs_mul(a3 as int, p.c3 as int, PROJ_ROW_BOUND as int, COORD_BOUND as int);
    }
    let b = -(a2 * p.c2 + a3 * p.c3);
    Row5 { a0: 0, a1: 0, a2, a3, b }
}

/// Law: the hidden-axis output row of the camera's projection is a function
/// of the vertical tilt and the camera position alone. Two projections taken
/// after any horizontal-only rotation update — and with any fields of view —
/// share the same hidden row, entry for entry and on every point.
pub proof fn lemma_hidden_row_horizontal_invariant(
    r1: Row5,
    r2: Row5,
    vs: int,
    vc: int,
    p: Vec4,
)
    requires
        is_hidden_row(r1, vs, vc, p),
        is_hidden_row(r2, vs, vc, p),
    ensures
        r1 == r2,
        forall|x: Vec4| row_apply(r1, x) == row_apply(r2, x),
{
}

/// Law: at any world point `x` the hidden row evaluates to `-UNIT^2` times
/// the tilted hidden-axis coordinate of `x` relative to the camera position —
/// the signed distance to the slicing hyperplane (in `UNIT^3`-scaled form),
/// independent of the field of view.
pub proof fn lemma_hidden_row_value(r: Row5, vs: int, vc: int, p: Vec4, x: Vec4)
    requires
        is_hidden_row(r, vs, vc, p),
    ensures
        row_apply(r, x) == -(UNIT * UNIT * (vc * (x.c3 - p.c3) - vs * (x.c2 - p.c2))),
{
    assert(row_apply(r, x) == -(UNIT * UNIT * (vc * (x.c3 - p.c3) - vs * (x.c2 - p.c2))))
        by (nonlinear_arith)
        requires
            r.a0 == 0,
            r.a1 == 0,
            r.a2 == UNIT * (UNIT * vs),
            r.a3 == -(UNIT * (UNIT * vc)),
            r.b == -(r.a2 * p.c2 + r.a3 * p.c3),
            row_apply(r, x) == r.a0 * x.c0 + r.a1 * x.c1 + r.a2 * x.c2 + r.a3 * x.c3 + r.b,
    ;
}

/// Converts a movement intent given in camera-local axes (strafe, vertical,
/// forward, hidden) into a world-space delta by the horizontal rotation
/// alone, ignoring vertical tilt — the rule the player-movement keys use.
/// The hidden component passes through unrotated (times `UNIT`, the output
/// being `UNIT^2`-scaled): motion along the hidden axis is independent of
/// the horizontal view direction.
pub fn world_motion(o: &Orientation, intent: &Vec4) -> (d: Vec4)
    requires
        orientation_wf(*o),
        vec4_in_range(*intent, COORD_BOUND as int),
    ensures
        d.c0 as int == o.horizontal.m00 * intent.c0 + o.horizontal.m01 * intent.c1
            + o.horizontal.m02 * intent.c2,
        d.c1 as int == o.horizontal.m10 * intent.c0 + o.horizontal.m11 * intent.c1
            + o.horizontal.m12 * intent.c2,
        d.c2 as int == o.horizontal.m20 * intent.c0 + o.horizontal.m21 * intent.c1
            + o.horizontal.m22 * intent.c2,
        d.c3 as int == UNIT * intent.c3,
{
    proof {
        crate::linalg::lemma_abs_mul(o.horizontal.m00 as int, intent.c0 as int, ROT_BOUND as int, COORD_BOUND as int);
        crate::linalg::lemma_abs_mul(o.horizontal.m01 as int, intent.c1 as int, ROT_BOUND as int, COORD_BOUND as int);
        crate::linalg::lemma_abs_mul(o.horizontal.m02 as int, intent.c2 as int, ROT_BOUND as int, COORD_BOUND as int);
        crate::linalg::lemma_abs_mul(o.horizontal.m10 as int, intent.c0 as int, ROT_BOUND as int, COORD_BOUND as int);
        crate::linalg::lemma_abs_mul(o.horizontal.m11 as int, intent.c1 as int, ROT_BOUND as int, COORD_BOUND as int);
        crate::linalg::lemma_abs_mul(o.horizontal.m12 as int, intent.c2 as int, ROT_BOUND as int, COORD_BOUND as int);
        crate::linalg::lemma_abs_mul(o.horizontal.m20 as int, intent.c0 as int, ROT_BOUND as int, COORD_BOUND as int);
        crate::linalg::lemma_abs_mul(o.horizontal.m21 as int, intent.c1 as int, ROT_BOUND as int, COORD_BOUND as int);
        crate::linalg::lemma_abs_mul(o.horizontal.m22 as int, intent.c2 as int, ROT_BOUND as int, COORD_BOUND as int);
    }
    Vec4 {
        c0: o.horizontal.m00 * intent.c0 + o.horizontal.m01 * intent.c1
            + o.horizontal.m02 * intent.c2,
        c1: o.horizontal.m10 * intent.c0 + o.horizontal.m11 * intent.c1
            + o.horizontal.m12 * intent.c2,
        c2: o.horizontal.m20 * intent.c0 + o.horizontal.m21 * intent.c1
            + o.horizontal.m22 * intent.c2,
        c3: UNIT * intent.c3,
    }
}

} // verus!
