//! The reference world: a bounded ground and two four-dimensional "tree"
//! objects at different hidden-axis offsets, sharing one base definition.
//!
//! All coordinates are `UNIT`-scaled; half-space offsets are scaled by
//! `UNIT * UNIT`. The tree is generated procedurally by applying a finite
//! symmetry group — the icosahedral rotation group, supplied by the caller
//! as fixed-point matrices — to a base block of triangles; its
//! occluding volume decomposes into exactly two convex regions, foliage and
//! trunk, each already symmetric under the group.

use vstd::prelude::*;

use crate::linalg::{
    div_unit, in_range, lemma_abs_mul, mat3_in_range, row_in_range, trunc_div_unit,
    vec4_in_range, Mat3, Row5, Vec4, COEFF_BOUND, COORD_BOUND, OFFSET_BOUND, ROT_BOUND, UNIT,
};
use crate::region::{region_wf, rowsets_of, Region};
use crate::scene::{
    lemma_pair_bounds, lemma_translated_bounds, renderable_wf, rowsets_bounded, spec_regions,
    spec_triangles, verts_bounded, Renderable, Vertex,
};

verus! {

/// Bound on a coordinate of a base table vertex (10 units).
pub const TABLE_COORD_BOUND: i128 = 10_000_000;

/// Bound on a coefficient of a base table half-space row (10 units).
pub const TABLE_COEFF_BOUND: i128 = 10_000_000;

/// Bound on an offset of a base table half-space row.
pub const TABLE_OFFSET_BOUND: i128 = 100_000_000_000_000;

/// Bound on a coordinate of a tree vertex after rotation (100 units).
pub const TREE_VERT_BOUND: i128 = 100_000_000;

/// Vertex literal helper for the tables below.
pub open spec fn vert(c0: i128, c1: i128, c2: i128, c3: i128, tu: i128, tv: i128) -> Vertex {
    Vertex { pos: Vec4 { c0, c1, c2, c3 }, tu, tv }
}

/// Half-space row literal helper for the tables below.
pub open spec fn hrow(a0: i128, a1: i128, a2: i128, a3: i128, b: i128) -> Row5 {
    Row5 { a0, a1, a2, a3, b }
}

/// Every row of the list is within the given table bounds.
pub open spec fn rows_bounded(rows: Seq<Row5>, cb: int, ob: int) -> bool {
    forall|i: int| 0 <= i < rows.len() ==> row_in_range(#[trigger] rows[i], cb, ob)
}

/// The ground: the six 10-unit quads bounding the visible block at height
/// zero, double-faced triangle by triangle.
pub open spec fn ground_vertices_spec() -> Seq<Vertex> {
    seq![
        vert(0i128, -10_000_000i128, -10_000_000i128, -10_000_000i128, 1_000_000i128, 1_000_000i128),
        vert(0i128, -10_000_000i128, -10_000_000i128, 10_000_000i128, 1_000_000i128, 1_000_000i128),
        vert(0i128, -10_000_000i128, 10_000_000i128, 10_000_000i128, 1_000_000i128, 1_000_000i128),
        vert(0i128, -10_000_000i128, 10_000_000i128, 10_000_000i128, 1_000_000i128, 1_000_000i128),
        vert(0i128, -10_000_000i128, 10_000_000i128, -10_000_000i128, 1_000_000i128, 1_000_000i128),
        vert(0i128, -10_000_000i128, -10_000_000i128, -10_000_000i128, 1_000_000i128, 1_000_000i128),
        vert(0i128, 10_000_000i128, -10_000_000i128, -10_000_000i128, 1_000_000i128, 1_000_000i128),
        vert(0i128, 10_000_000i128, -10_000_000i128, 10_000_000i128, 1_000_000i128, 1_000_000i128),
        vert(0i128, 10_000_000i128, 10_000_000i128, 10_000_000i128, 1_000_000i128, 1_000_000i128),
        vert(0i128, 10_000_000i128, 10_000_000i128, 10_000_000i128, 1_000_000i128, 1_000_000i128),
        vert(0i128, 10_000_000i128, 10_000_000i128, -10_000_000i128, 1_000_000i128, 1_000_000i128),
        vert(0i128, 10_000_000i128, -10_000_000i128, -10_000_000i128, 1_000_000i128, 1_000_000i128),
        vert(0i128, -10_000_000i128, -10_000_000i128, -10_000_000i128, 1_000_000i128, 1_000_000i128),
        vert(0i128, 10_000_000i128, -10_000_000i128, -10_000_000i128, 1_000_000i128, 1_000_000i128),
        vert(0i128, 10_000_000i128, -10_000_000i128, 10_000_000i128, 1_000_000i128, 1_000_000i128),
        vert(0i128, 10_000_000i128, -10_000_000i128, 10_000_000i128, 1_000_000i128, 1_000_000i128),
        vert(0i128, -10_000_000i128, -10_000_000i128, 10_000_000i128, 1_000_000i128, 1_000_000i128),
        vert(0i128, -10_000_000i128, -10_000_000i128, -10_000_000i128, 1_000_000i128, 1_000_000i128),
        vert(0i128, -10_000_000i128, 10_000_000i128, -10_000_000i128, 1_000_000i128, 1_000_000i128),
        vert(0i128, 10_000_000i128, 10_000_000i128, -10_000_000i128, 1_000_000i128, 1_000_000i128),
        vert(0i128, 10_000_000i128, 10_000_000i128, 10_000_000i128, 1_000_000i128, 1_000_000i128),
        vert(0i128, 10_000_000i128, 10_000_000i128, 10_000_000i128, 1_000_000i128, 1_000_000i128),
        vert(0i128, -10_000_000i128, 10_000_000i128, 10_000_000i128, 1_000_000i128, 1_000_000i128),
        vert(0i128, -10_000_000i128, 10_000_000i128, -10_000_000i128, 1_000_000i128, 1_000_000i128),
        vert(0i128, -10_000_000i128, -10_000_000i128, -10_000_000i128, 1_000_000i128, 1_000_000i128),
        vert(0i128, -10_000_000i128, 10_000_000i128, -10_000_000i128, 1_000_000i128, 1_000_000i128),
        vert(0i128, 10_000_000i128, 10_000_000i128, -10_000_000i128, 1_000_000i128, 1_000_000i128),
        vert(0i128, 10_000_000i128, 10_000_000i128, -10_000_000i128, 1_000_000i128, 1_000_000i128),
        vert(0i128, 10_000_000i128, -10_000_000i128, -10_000_000i128, 1_000_000i128, 1_000_000i128),
        vert(0i128, -10_000_000i128, -10_000_000i128, -10_000_000i128, 1_000_000i128, 1_000_000i128),
        vert(0i128, -10_000_000i128, -10_000_000i128, 10_000_000i128, 1_000_000i128, 1_000_000i128),
        vert(0i128, -10_000_000i128, 10_000_000i128, 10_000_000i128, 1_000_000i128, 1_000_000i128),
        vert(0i128, 10_000_000i128, 10_000_000i128, 10_000_000i128, 1_000_000i128, 1_000_000i128),
        vert(0i128, 10_000_000i128, 10_000_000i128, 10_000_000i128, 1_000_000i128, 1_000_000i128),
        vert(0i128, 10_000_000i128, -10_000_000i128, 10_000_000i128, 1_000_000i128, 1_000_000i128),
        vert(0i128, -10_000_000i128, -10_000_000i128, 10_000_000i128, 1_000_000i128, 1_000_000i128),
    ]
}

/// The ground's single region is empty (its row is a constant negative
/// functional): the ground plane is thin and never occludes anything.
pub open spec fn ground_regions_spec() -> Seq<Seq<Row5>> {
    seq![seq![hrow(0i128, 0i128, 0i128, 0i128, -1_000_000_000_000i128)]]
}

/// The 21 base vertices of one tree block: three foliage triangles around
/// the apex spike and four trunk triangles. The golden ratio coordinates of
/// the icosahedral frame are rounded to the `UNIT` scale.
pub open spec fn tree_base_spec() -> Seq<Vertex> {
    seq![
        vert(6_000_000i128, 0i128, 0i128, 0i128, 1_000_000i128, 1_000_000i128),
        vert(1_000_000i128, -618_034i128, 1_618_034i128, 0i128, 0i128, 1_000_000i128),
        vert(1_000_000i128, 618_034i128, 1_618_034i128, 0i128, 0i128, 1_000_000i128),
        vert(1_000_000i128, 0i128, 1_170_820i128, 723_607i128, 0i128, 1_000_000i128),
        vert(1_000_000i128, -618_034i128, 1_618_034i128, 0i128, 0i128, 1_000_000i128),
        vert(1_000_000i128, 618_034i128, 1_618_034i128, 0i128, 0i128, 1_000_000i128),
        vert(1_000_000i128, 0i128, 1_170_820i128, 723_607i128, 0i128, 1_000_000i128),
        vert(1_000_000i128, -618_034i128, 1_618_034i128, 0i128, 0i128, 1_000_000i128),
        vert(1_000_000i128, 618_034i128, 1_618_034i128, 0i128, 0i128, 1_000_000i128),
        vert(0i128, 0i128, 292_705i128, 180_902i128, 0i128, 0i128),
        vert(0i128, -154_508i128, 404_508i128, 0i128, 859_375i128, 0i128),
        vert(0i128, 154_508i128, 404_508i128, 0i128, 0i128, 859_375i128),
        vert(0i128, 0i128, 292_705i128, 180_902i128, 0i128, 0i128),
        vert(0i128, -154_508i128, 404_508i128, 0i128, 859_375i128, 0i128),
        vert(0i128, 154_508i128, 404_508i128, 0i128, 0i128, 859_375i128),
        vert(0i128, -154_508i128, 404_508i128, 0i128, 859_375i128, 0i128),
        vert(0i128, 154_508i128, 404_508i128, 0i128, 0i128, 859_375i128),
        vert(1_000_000i128, 154_508i128, 404_508i128, 0i128, 0i128, 859_375i128),
        vert(1_000_000i128, 154_508i128, 404_508i128, 0i128, 0i128, 859_375i128),
        vert(1_000_000i128, -154_508i128, 404_508i128, 0i128, 859_375i128, 0i128),
        vert(0i128, -154_508i128, 404_508i128, 0i128, 859_375i128, 0i128),
    ]
}

/// One base vertex carried to its place by a symmetry-group rotation: the
/// rotation acts on axes 1, 2, 3 and leaves the trunk axis 0 fixed; the
/// `UNIT`-squared products are brought back to scale truncating toward zero.
pub open spec fn spin_vertex(m: Mat3, v: Vertex) -> Vertex {
    Vertex {
        pos: Vec4 {
            c0: v.pos.c0,
            c1: trunc_div_unit(m.m00 * v.pos.c1 + m.m01 * v.pos.c2 + m.m02 * v.pos.c3) as i128,
            c2: trunc_div_unit(m.m10 * v.pos.c1 + m.m11 * v.pos.c2 + m.m12 * v.pos.c3) as i128,
            c3: trunc_div_unit(m.m20 * v.pos.c1 + m.m21 * v.pos.c2 + m.m22 * v.pos.c3) as i128,
        },
        tu: v.tu,
        tv: v.tv,
    }
}

/// The full tree vertex stream: one 21-vertex block per group element.
pub open spec fn tree_vertices_spec(rots: Seq<Mat3>) -> Seq<Vertex> {
    Seq::new(rots.len() * 21, |k: int| spin_vertex(rots[k / 21], tree_base_spec()[k % 21]))
}

/// The foliage region: a cap below the apex cut by the twelve icosahedral
/// face planes (each row scaled by five to stay integral).
pub open spec fn foliage_rows_spec() -> Seq<Row5> {
    seq![
        hrow(-1_000_000i128, 0i128, 0i128, 0i128, 1_000_000_000_000i128),
        hrow(2_618_034i128, 8_090_170i128, 5_000_000i128, 0i128, -15_708_204_000_000i128),
        hrow(2_618_034i128, 8_090_170i128, -5_000_000i128, 0i128, -15_708_204_000_000i128),
        hrow(2_618_034i128, -8_090_170i128, 5_000_000i128, 0i128, -15_708_204_000_000i128),
        hrow(2_618_034i128, -8_090_170i128, -5_000_000i128, 0i128, -15_708_204_000_000i128),
        hrow(2_618_034i128, 5_000_000i128, 0i128, 8_090_170i128, -15_708_204_000_000i128),
        hrow(2_618_034i128, -5_000_000i128, 0i128, 8_090_170i128, -15_708_204_000_000i128),
        hrow(2_618_034i128, 5_000_000i128, 0i128, -8_090_170i128, -15_708_204_000_000i128),
        hrow(2_618_034i128, -5_000_000i128, 0i128, -8_090_170i128, -15_708_204_000_000i128),
        hrow(2_618_034i128, 0i128, 8_090_170i128, 5_000_000i128, -15_708_204_000_000i128),
        hrow(2_618_034i128, 0i128, 8_090_170i128, -5_000_000i128, -15_708_204_000_000i128),
        hrow(2_618_034i128, 0i128, -8_090_170i128, 5_000_000i128, -15_708_204_000_000i128),
        hrow(2_618_034i128, 0i128, -8_090_170i128, -5_000_000i128, -15_708_204_000_000i128),
    ]
}

/// The trunk region: a unit-height dodecahedral prism around the trunk axis
/// (each face row scaled by four to stay integral).
pub open spec fn trunk_rows_spec() -> Seq<Row5> {
    seq![
        hrow(-1_000_000i128, 0i128, 0i128, 0i128, 0i128),
        hrow(1_000_000i128, 0i128, 0i128, 0i128, -1_000_000_000_000i128),
        hrow(0i128, 6_472_136i128, 4_000_000i128, 0i128, -2_618_034_000_000i128),
        hrow(0i128, 6_472_136i128, -4_000_000i128, 0i128, -2_618_034_000_000i128),
        hrow(0i128, -6_472_136i128, 4_000_000i128, 0i128, -2_618_034_000_000i128),
        hrow(0i128, -6_472_136i128, -4_000_000i128, 0i128, -2_618_034_000_000i128),
        hrow(0i128, 4_000_000i128, 0i128, 6_472_136i128, -2_618_034_000_000i128),
        hrow(0i128, -4_000_000i128, 0i128, 6_472_136i128, -2_618_034_000_000i128),
        hrow(0i128, 4_000_000i128, 0i128, -6_472_136i128, -2_618_034_000_000i128),
        hrow(0i128, -4_000_000i128, 0i128, -6_472_136i128, -2_618_034_000_000i128),
        hrow(0i128, 0i128, 6_472_136i128, 4_000_000i128, -2_618_034_000_000i128),
        hrow(0i128, 0i128, 6_472_136i128, -4_000_000i128, -2_618_034_000_000i128),
        hrow(0i128, 0i128, -6_472_136i128, 4_000_000i128, -2_618_034_000_000i128),
        hrow(0i128, 0i128, -6_472_136i128, -4_000_000i128, -2_618_034_000_000i128),
    ]
}

/// The tree's convex decomposition: exactly the foliage and trunk regions,
/// both already symmetric under the icosahedral group.
pub open spec fn tree_regions_spec() -> Seq<Seq<Row5>> {
    seq![foliage_rows_spec(), trunk_rows_spec()]
}

/// Appends one vertex to a table under construction, keeping the table
/// bounds.
fn push_vert(out: &mut Vec<Vertex>, c0: i128, c1: i128, c2: i128, c3: i128, tu: i128, tv: i128)
    requires
        in_range(c0 as int, TABLE_COORD_BOUND as int),
        in_range(c1 as int, TABLE_COORD_BOUND as int),
        in_range(c2 as int, TABLE_COORD_BOUND as int),
        in_range(c3 as int, TABLE_COORD_BOUND as int),
        verts_bounded(old(out)@, TABLE_COORD_BOUND as int),
    ensures
        final(out)@ == old(out)@.push(vert(c0, c1, c2, c3, tu, tv)),
        verts_bounded(final(out)@, TABLE_COORD_BOUND as int),
{
    out.push(Vertex { pos: Vec4 { c0, c1, c2, c3 }, tu, tv });
}

/// Appends one half-space row to a table under construction, keeping the
/// table bounds.
fn push_row(out: &mut Vec<Row5>, a0: i128, a1: i128, a2: i128, a3: i128, b: i128)
    requires
        in_range(a0 as int, TABLE_COEFF_BOUND as int),
        in_range(a1 as int, TABLE_COEFF_BOUND as int),
        in_range(a2 as int, TABLE_COEFF_BOUND as int),
        in_range(a3 as int, TABLE_COEFF_BOUND as int),
        in_range(b as int, TABLE_OFFSET_BOUND as int),
        rows_bounded(old(out)@, TABLE_COEFF_BOUND as int, TABLE_OFFSET_BOUND as int),
    ensures
        final(out)@ == old(out)@.push(hrow(a0, a1, a2, a3, b)),
        rows_bounded(final(out)@, TABLE_COEFF_BOUND as int, TABLE_OFFSET_BOUND as int),
{
    out.push(Row5 { a0, a1, a2, a3, b });
}

/// Builds the bounded ground plane primitive.
#[verifier::rlimit(100)]
pub fn ground() -> (g: Renderable)
    ensures
        g is Primitive,
        spec_triangles(g) == ground_vertices_spec(),
        spec_regions(g) == ground_regions_spec(),
        renderable_wf(g),
        verts_bounded(spec_triangles(g), TABLE_COORD_BOUND as int),
        rowsets_bounded(spec_regions(g), TABLE_COEFF_BOUND as int, TABLE_OFFSET_BOUND as int),
{
    let mut vs: Vec<Vertex> = Vec::new();
    push_vert(&mut vs, 0, -10_000_000, -10_000_000, -10_000_000, 1_000_000, 1_000_000);
    push_vert(&mut vs, 0, -10_000_000, -10_000_000, 10_000_000, 1_000_000, 1_000_000);
    push_vert(&mut vs, 0, -10_000_000, 10_000_000, 10_000_000, 1_000_000, 1_000_000);
    push_vert(&mut vs, 0, -10_000_000, 10_000_000, 10_000_000, 1_000_000, 1_000_000);
    push_vert(&mut vs, 0, -10_000_000, 10_000_000, -10_000_000, 1_000_000, 1_000_000);
    push_vert(&mut vs, 0, -10_000_000, -10_000_000, -10_000_000, 1_000_000, 1_000_000);
    push_vert(&mut vs, 0, 10_000_000, -10_000_000, -10_000_000, 1_000_000, 1_000_000);
    push_vert(&mut vs, 0, 10_000_000, -10_000_000, 10_000_000, 1_000_000, 1_000_000);
    push_vert(&mut vs, 0, 10_000_000, 10_000_000, 10_000_000, 1_000_000, 1_000_000);
    push_vert(&mut vs, 0, 10_000_000, 10_000_000, 10_000_000, 1_000_000, 1_000_000);
    push_vert(&mut vs, 0, 10_000_000, 10_000_000, -10_000_000, 1_000_000, 1_000_000);
    push_vert(&mut vs, 0, 10_000_000, -10_000_000, -10_000_000, 1_000_000, 1_000_000);
    push_vert(&mut vs, 0, -10_000_000, -10_000_000, -10_000_000, 1_000_000, 1_000_000);
    push_vert(&mut vs, 0, 10_000_000, -10_000_000, -10_000_000, 1_000_000, 1_000_000);
    push_vert(&mut vs, 0, 10_000_000, -10_000_000, 10_000_000, 1_000_000, 1_000_000);
    push_vert(&mut vs, 0, 10_000_000, -10_000_000, 10_000_000, 1_000_000, 1_000_000);
    push_vert(&mut vs, 0, -10_000_000, -10_000_000, 10_000_000, 1_000_000, 1_000_000);
    push_vert(&mut vs, 0, -10_000_000, -10_000_000, -10_000_000, 1_000_000, 1_000_000);
    push_vert(&mut vs, 0, -10_000_000, 10_000_000, -10_000_000, 1_000_000, 1_000_000);
    push_vert(&mut vs, 0, 10_000_000, 10_000_000, -10_000_000, 1_000_000, 1_000_000);
    push_vert(&mut vs, 0, 10_000_000, 10_000_000, 10_000_000, 1_000_000, 1_000_000);
    push_vert(&mut vs, 0, 10_000_000, 10_000_000, 10_000_000, 1_000_000, 1_000_000);
    push_vert(&mut vs, 0, -10_000_000, 10_000_000, 10_000_000, 1_000_000, 1_000_000);
    push_vert(&mut vs, 0, -10_000_000, 10_000_000, -10_000_000, 1_000_000, 1_000_000);
    push_vert(&mut vs, 0, -10_000_000, -10_000_000, -10_000_000, 1_000_000, 1_000_000);
    push_vert(&mut vs, 0, -10_000_000, 10_000_000, -10_000_000, 1_000_000, 1_000_000);
    push_vert(&mut vs, 0, 10_000_000, 10_000_000, -10_000_000, 1_000_000, 1_000_000);
    push_vert(&mut vs, 0, 10_000_000, 10_000_000, -10_000_000, 1_000_000, 1_000_000);
    push_vert(&mut vs, 0, 10_000_000, -10_000_000, -10_000_000, 1_000_000, 1_000_000);
    push_vert(&mut vs, 0, -10_000_000, -10_000_000, -10_000_000, 1_000_000, 1_000_000);
    push_vert(&mut vs, 0, -10_000_000, -10_000_000, 10_000_000, 1_000_000, 1_000_000);
    push_vert(&mut vs, 0, -10_000_000, 10_000_000, 10_000_000, 1_000_000, 1_000_000);
    push_vert(&mut vs, 0, 10_000_000, 10_000_000, 10_000_000, 1_000_000, 1_000_000);
    push_vert(&mut vs, 0, 10_000_000, 10_000_000, 10_000_000, 1_000_000, 1_000_000);
    push_vert(&mut vs, 0, 10_000_000, -10_000_000, 10_000_000, 1_000_000, 1_000_000);
    push_vert(&mut vs, 0, -10_000_000, -10_000_000, 10_000_000, 1_000_000, 1_000_000);
    proof {
        assert(vs@ =~= ground_vertices_spec());
    }
    let mut rows: Vec<Row5> = Vec::new();
    push_row(&mut rows, 0, 0, 0, 0, -1_000_000_000_000);
    let mut regions: Vec<Region> = Vec::new();
    regions.push(Region { rows });
    let g = Renderable::Primitive { vertices: vs, regions };
    proof {
        assert(spec_regions(g) =~= ground_regions_spec()) by {
            assert(rowsets_of(regions@)[0] == regions@[0].rows@);
            assert(regions@[0].rows@ =~= seq![hrow(0i128, 0i128, 0i128, 0i128, -1_000_000_000_000i128)]);
        }
        assert forall|i: int| 0 <= i < vs@.len() implies vec4_in_range(
            (#[trigger] vs@[i]).pos,
            COORD_BOUND as int,
        ) by {
            assert(vec4_in_range(vs@[i].pos, TABLE_COORD_BOUND as int));
        }
        assert forall|i: int| 0 <= i < regions@.len() implies region_wf(
            #[trigger] regions@[i],
        ) by {
            assert forall|j: int| 0 <= j < regions@[i].rows@.len() implies row_in_range(
                #[trigger] regions@[i].rows@[j],
                COEFF_BOUND as int,
                OFFSET_BOUND as int,
            ) by {
                assert(row_in_range(
                    regions@[i].rows@[j],
                    TABLE_COEFF_BOUND as int,
                    TABLE_OFFSET_BOUND as int,
                ));
            }
        }
        assert forall|i: int, j: int|
            0 <= i < spec_regions(g).len() && 0 <= j < spec_regions(g)[i].len()
            implies row_in_range(
            #[trigger] spec_regions(g)[i][j],
            TABLE_COEFF_BOUND as int,
            TABLE_OFFSET_BOUND as int,
        ) by {
            assert(spec_regions(g)[i] == rowsets_of(regions@)[i]);
            assert(spec_regions(g)[i][j] == regions@[i].rows@[j]);
        }
    }
    g
}

/// Builds the 21-vertex base block of the tree.
#[verifier::rlimit(100)]
fn tree_base() -> (vs: Vec<Vertex>)
    ensures
        vs@ == tree_base_spec(),
        verts_bounded(vs@, TABLE_COORD_BOUND as int),
{
    let mut vs: Vec<Vertex> = Vec::new();
    push_vert(&mut vs, 6_000_000, 0, 0, 0, 1_000_000, 1_000_000);
    push_vert(&mut vs, 1_000_000, -618_034, 1_618_034, 0, 0, 1_000_000);
    push_vert(&mut vs, 1_000_000, 618_034, 1_618_034, 0, 0, 1_000_000);
    push_vert(&mut vs, 1_000_000, 0, 1_170_820, 723_607, 0, 1_000_000);
    push_vert(&mut vs, 1_000_000, -618_034, 1_618_034, 0, 0, 1_000_000);
    push_vert(&mut vs, 1_000_000, 618_034, 1_618_034, 0, 0, 1_000_000);
    push_vert(&mut vs, 1_000_000, 0, 1_170_820, 723_607, 0, 1_000_000);
    push_vert(&mut vs, 1_000_000, -618_034, 1_618_034, 0, 0, 1_000_000);
    push_vert(&mut vs, 1_000_000, 618_034, 1_618_034, 0, 0, 1_000_000);
    push_vert(&mut vs, 0, 0, 292_705, 180_902, 0, 0);
    push_vert(&mut vs, 0, -154_508, 404_508, 0, 859_375, 0);
    push_vert(&mut vs, 0, 154_508, 404_508, 0, 0, 859_375);
    push_vert(&mut vs, 0, 0, 292_705, 180_902, 0, 0);
    push_vert(&mut vs, 0, -154_508, 404_508, 0, 859_375, 0);
    push_vert(&mut vs, 0, 154_508, 404_508, 0, 0, 859_375);
    push_vert(&mut vs, 0, -154_508, 404_508, 0, 859_375, 0);
    push_vert(&mut vs, 0, 154_508, 404_508, 0, 0, 859_375);
    push_vert(&mut vs, 1_000_000, 154_508, 404_508, 0, 0, 859_375);
    push_vert(&mut vs, 1_000_000, 154_508, 404_508, 0, 0, 859_375);
    push_vert(&mut vs, 1_000_000, -154_508, 404_508, 0, 859_375, 0);
    push_vert(&mut vs, 0, -154_508, 404_508, 0, 859_375, 0);
    proof {
        assert(vs@ =~= tree_base_spec());
    }
    vs
}

/// Rotates one base vertex into place; see [`spin_vertex`].
fn spin_vertex_exec(m: &Mat3, v: &Vertex) -> (r: Vertex)
    requires
        mat3_in_range(*m, ROT_BOUND as int),
        vec4_in_range(v.pos, TABLE_COORD_BOUND as int),
    ensures
        r == spin_vertex(*m, *v),
        vec4_in_range(r.pos, TREE_VERT_BOUND as int),
{
    proof {
        lemma_abs_mul(m.m00 as int, v.pos.c1 as int, ROT_BOUND as int, TABLE_COORD_BOUND as int);
        lemma_abs_mul(m.m01 as int, v.pos.c2 as int, ROT_BOUND as int, TABLE_COORD_BOUND as int);
        lemma_abs_mul(m.m02 as int, v.pos.c3 as int, ROT_BOUND as int, TABLE_COORD_BOUND as int);
        lemma_abs_mul(m.m10 as int, v.pos.c1 as int, ROT_BOUND as int, TABLE_COORD_BOUND as int);
        lemma_abs_mul(m.m11 as int, v.pos.c2 as int, ROT_BOUND as int, TABLE_COORD_BOUND as int);
        lemma_abs_mul(m.m12 as int, v.pos.c3 as int, ROT_BOUND as int, TABLE_COORD_BOUND as int);
        lemma_abs_mul(m.m20 as int, v.pos.c1 as int, ROT_BOUND as int, TABLE_COORD_BOUND as int);
        lemma_abs_mul(m.m21 as int, v.pos.c2 as int, ROT_BOUND as int, TABLE_COORD_BOUND as int);
        lemma_abs_mul(m.m22 as int, v.pos.c3 as int, ROT_BOUND as int, TABLE_COORD_BOUND as int);
    }
    let s1: i128 = m.m00 * v.pos.c1 + m.m01 * v.pos.c2 + m.m02 * v.pos.c3;
    let s2: i128 = m.m10 * v.pos.c1 + m.m11 * v.pos.c2 + m.m12 * v.pos.c3;
    let s3: i128 = m.m20 * v.pos.c1 + m.m21 * v.pos.c2 + m.m22 * v.pos.c3;
    let c1 = div_unit(s1);
    let c2 = div_unit(s2);
    let c3 = div_unit(s3);
    Vertex { pos: Vec4 { c0: v.pos.c0, c1, c2, c3 }, tu: v.tu, tv: v.tv }
}

/// Builds the foliage region rows.
#[verifier::rlimit(100)]
fn foliage_rows() -> (rows: Vec<Row5>)
    ensures
        rows@ == foliage_rows_spec(),
        rows_bounded(rows@, TABLE_COEFF_BOUND as int, TABLE_OFFSET_BOUND as int),
{
    let mut rows: Vec<Row5> = Vec::new();
    push_row(&mut rows, -1_000_000, 0, 0, 0, 1_000_000_000_000);
    push_row(&mut rows, 2_618_034, 8_090_170, 5_000_000, 0, -15_708_204_000_000);
    push_row(&mut rows, 2_618_034, 8_090_170, -5_000_000, 0, -15_708_204_000_000);
    push_row(&mut rows, 2_618_034, -8_090_170, 5_000_000, 0, -15_708_204_000_000);
    push_row(&mut rows, 2_618_034, -8_090_170, -5_000_000, 0, -15_708_204_000_000);
    push_row(&mut rows, 2_618_034, 5_000_000, 0, 8_090_170, -15_708_204_000_000);
    push_row(&mut rows, 2_618_034, -5_000_000, 0, 8_090_170, -15_708_204_000_000);
    push_row(&mut rows, 2_618_034, 5_000_000, 0, -8_090_170, -15_708_204_000_000);
    push_row(&mut rows, 2_618_034, -5_000_000, 0, -8_090_170, -15_708_204_000_000);
    push_row(&mut rows, 2_618_034, 0, 8_090_170, 5_000_000, -15_708_204_000_000);
    push_row(&mut rows, 2_618_034, 0, 8_090_170, -5_000_000, -15_708_204_000_000);
    push_row(&mut rows, 2_618_034, 0, -8_090_170, 5_000_000, -15_708_204_000_000);
    push_row(&mut rows, 2_618_034, 0, -8_090_170, -5_000_000, -15_708_204_000_000);
    proof {
        assert(rows@ =~= foliage_rows_spec());
    }
    rows
}

/// Builds the trunk region rows.
#[verifier::rlimit(100)]
fn trunk_rows() -> (rows: Vec<Row5>)
    ensures
        rows@ == trunk_rows_spec(),
        rows_bounded(rows@, TABLE_COEFF_BOUND as int, TABLE_OFFSET_BOUND as int),
{
    let mut rows: Vec<Row5> = Vec::new();
    push_row(&mut rows, -1_000_000, 0, 0, 0, 0);
    push_row(&mut rows, 1_000_000, 0, 0, 0, -1_000_000_000_000);
    push_row(&mut rows, 0, 6_472_136, 4_000_000, 0, -2_618_034_000_000);
    push_row(&mut rows, 0, 6_472_136, -4_000_000, 0, -2_618_034_000_000);
    push_row(&mut rows, 0, -6_472_136, 4_000_000, 0, -2_618_034_000_000);
    push_row(&mut rows, 0, -6_472_136, -4_000_000, 0, -2_618_034_000_000);
    push_row(&mut rows, 0, 4_000_000, 0, 6_472_136, -2_618_034_000_000);
    push_row(&mut rows, 0, -4_000_000, 0, 6_472_136, -2_618_034_000_000);
    push_row(&mut rows, 0, 4_000_000, 0, -6_472_136, -2_618_034_000_000);
    push_row(&mut rows, 0, -4_000_000, 0, -6_472_136, -2_618_034_000_000);
    push_row(&mut rows, 0, 0, 6_472_136, 4_000_000, -2_618_034_000_000);
    push_row(&mut rows, 0, 0, 6_472_136, -4_000_000, -2_618_034_000_000);
    push_row(&mut rows, 0, 0, -6_472_136, 4_000_000, -2_618_034_000_000);
    push_row(&mut rows, 0, 0, -6_472_136, -4_000_000, -2_618_034_000_000);
    proof {
        assert(rows@ =~= trunk_rows_spec());
    }
    rows
}

/// Builds one tree primitive from the symmetry-group rotations the host
/// supplies (the group itself — unit quaternions and their matrices — is
/// transcendental floating-point work done outside this crate).
pub fn tree(rotations: &Vec<Mat3>) -> (g: Renderable)
    requires
        rotations@.len() <= 4096,
        forall|i: int|
            0 <= i < rotations@.len() ==> mat3_in_range(#[trigger] rotations@[i], ROT_BOUND as int),
    ensures
        g is Primitive,
        spec_triangles(g) == tree_vertices_spec(rotations@),
        spec_regions(g) == tree_regions_spec(),
        renderable_wf(g),
        verts_bounded(spec_triangles(g), TREE_VERT_BOUND as int),
        rowsets_bounded(spec_regions(g), TABLE_COEFF_BOUND as int, TABLE_OFFSET_BOUND as int),
{
    let base = tree_base();
    let mut vs: Vec<Vertex> = Vec::new();
    let n: usize = rotations.len();
    let mut i: usize = 0;
    while i < n
        invariant
            0 <= i <= n,
            n == rotations@.len(),
            n <= 4096,
            forall|q: int|
                0 <= q < rotations@.len() ==> mat3_in_range(
                    #[trigger] rotations@[q],
                    ROT_BOUND as int,
                ),
            base@ == tree_base_spec(),
            verts_bounded(base@, TABLE_COORD_BOUND as int),
            vs@.len() == i * 21,
            forall|k: int|
                0 <= k < vs@.len() ==> #[trigger] vs@[k] == spin_vertex(
                    rotations@[k / 21],
                    tree_base_spec()[k % 21],
                ),
            verts_bounded(vs@, TREE_VERT_BOUND as int),
        decreases n - i,
    {
        let mut j: usize = 0;
        while j < 21
            invariant
                0 <= j <= 21,
                0 <= i < n,
                n == rotations@.len(),
                n <= 4096,
                forall|q: int|
                    0 <= q < rotations@.len() ==> mat3_in_range(
                        #[trigger] rotations@[q],
                        ROT_BOUND as int,
                    ),
                base@ == tree_base_spec(),
                verts_bounded(base@, TABLE_COORD_BOUND as int),
                vs@.len() == i * 21 + j,
                forall|k: int|
                    0 <= k < vs@.len() ==> #[trigger] vs@[k] == spin_vertex(
                        rotations@[k / 21],
                        tree_base_spec()[k % 21],
                    ),
                verts_bounded(vs@, TREE_VERT_BOUND as int),
            decreases 21 - j,
        {
            let r = spin_vertex_exec(&rotations[i], &base[j]);
            proof {
                let k0: int = i as int * 21 + j as int;
                assert(k0 / 21 == i as int && k0 % 21 == j as int) by (nonlinear_arith)
                    requires
                        0 <= j < 21,
                        0 <= i,
                        k0 == i as int * 21 + j as int,
                ;
            }
            vs.push(r);
            j = j + 1;
        }
        i = i + 1;
    }
    proof {
        assert(vs@ =~= tree_vertices_spec(rotations@));
    }
    let mut regions: Vec<Region> = Vec::new();
    regions.push(Region { rows: foliage_rows() });
    regions.push(Region { rows: trunk_rows() });
    let g = Renderable::Primitive { vertices: vs, regions };
    proof {
        assert(spec_regions(g) =~= tree_regions_spec()) by {
            assert(rowsets_of(regions@)[0] == regions@[0].rows@);
            assert(rowsets_of(regions@)[1] == regions@[1].rows@);
        }
        assert forall|k: int| 0 <= k < vs@.len() implies vec4_in_range(
            (#[trigger] vs@[k]).pos,
            COORD_BOUND as int,
        ) by {
            assert(vec4_in_range(vs@[k].pos, TREE_VERT_BOUND as int));
        }
        assert forall|q: int| 0 <= q < regions@.len() implies region_wf(
            #[trigger] regions@[q],
        ) by {
            assert forall|j: int| 0 <= j < regions@[q].rows@.len() implies row_in_range(
                #[trigger] regions@[q].rows@[j],
                COEFF_BOUND as int,
                OFFSET_BOUND as int,
            ) by {
                if q == 0 {
                    assert(row_in_range(
                        regions@[q].rows@[j],
                        TABLE_COEFF_BOUND as int,
                        TABLE_OFFSET_BOUND as int,
                    ));
                } else {
                    assert(row_in_range(
                        regions@[q].rows@[j],
                        TABLE_COEFF_BOUND as int,
                        TABLE_OFFSET_BOUND as int,
                    ));
                }
            }
        }
        assert forall|p: int, j: int|
            0 <= p < spec_regions(g).len() && 0 <= j < spec_regions(g)[p].len()
            implies row_in_range(
            #[trigger] spec_regions(g)[p][j],
            TABLE_COEFF_BOUND as int,
            TABLE_OFFSET_BOUND as int,
        ) by {
            assert(spec_regions(g)[p] == rowsets_of(regions@)[p]);
            assert(spec_regions(g)[p][j] == regions@[p].rows@[j]);
            assert(row_in_range(
                regions@[p].rows@[j],
                TABLE_COEFF_BOUND as int,
                TABLE_OFFSET_BOUND as int,
            ));
        }
    }
    g
}

/// The static scene: built once at startup, immutable thereafter.
#[derive(Default)]
pub struct World;

impl World {
    /// Assembles the scene graph: the ground and two trees at hidden-axis
    /// offsets -5 and -10, the whole world lowered by 1.5 units. Both trees
    /// share one base definition through the translation wrappers.
    pub fn to_renderable(&self, rotations: &Vec<Mat3>) -> (r: Renderable)
        requires
            rotations@.len() <= 4096,
            forall|i: int|
                0 <= i < rotations@.len() ==> mat3_in_range(
                    #[trigger] rotations@[i],
                    ROT_BOUND as int,
                ),
        ensures
            renderable_wf(r),
            r is Translated,
            r->shift == (Vec4 { c0: -1_500_000i128, c1: 0i128, c2: 0i128, c3: 0i128 }),
            *r->inner is Pair,
            spec_triangles(*(*r->inner)->left) == ground_vertices_spec(),
            spec_regions(*(*r->inner)->left) == ground_regions_spec(),
            *(*r->inner)->right is Pair,
            *(*(*r->inner)->right)->left is Translated,
            (*(*(*r->inner)->right)->left)->shift == (Vec4 { c0: 0i128, c1: 0i128, c2: 0i128, c3: -5_000_000i128 }),
            spec_triangles(*(*(*(*r->inner)->right)->left)->inner) == tree_vertices_spec(
                rotations@,
            ),
            spec_regions(*(*(*(*r->inner)->right)->left)->inner) == tree_regions_spec(),
            *(*(*r->inner)->right)->right is Translated,
            (*(*(*r->inner)->right)->right)->shift == (Vec4 {
                c0: 0i128,
                c1: 0i128,
                c2: 0i128,
                c3: -10_000_000i128,
            }),
            spec_triangles(*(*(*(*r->inner)->right)->right)->inner) == tree_vertices_spec(
                rotations@,
            ),
            spec_regions(*(*(*(*r->inner)->right)->right)->inner) == tree_regions_spec(),
    {
        let g = ground();
        let tree_a = tree(rotations);
        let tree_b = tree(rotations);
        let t1 = Renderable::translated(Vec4 { c0: 0i128, c1: 0i128, c2: 0i128, c3: -5_000_000i128 }, tree_a);
        proof {
            lemma_translated_bounds(
                t1,
                TREE_VERT_BOUND as int,
                TABLE_COORD_BOUND as int,
                TABLE_COEFF_BOUND as int,
                TABLE_OFFSET_BOUND as int,
            );
        }
        let t2 = Renderable::translated(Vec4 { c0: 0i128, c1: 0i128, c2: 0i128, c3: -10_000_000i128 }, tree_b);
        proof {
            lemma_translated_bounds(
                t2,
                TREE_VERT_BOUND as int,
                TABLE_COORD_BOUND as int,
                TABLE_COEFF_BOUND as int,
                TABLE_OFFSET_BOUND as int,
            );
        }
        let tp = Renderable::pair(t1, t2);
        proof {
            lemma_pair_bounds(
                tp,
                TREE_VERT_BOUND as int + TABLE_COORD_BOUND as int,
                TABLE_COEFF_BOUND as int,
                TABLE_OFFSET_BOUND as int + 4
                    * (TABLE_COEFF_BOUND as int * TABLE_COORD_BOUND as int),
            );
        }
        let inner = Renderable::pair(g, tp);
        proof {
            assert(verts_bounded(
                spec_triangles(*inner->left),
                TREE_VERT_BOUND as int + TABLE_COORD_BOUND as int,
            )) by {
                assert forall|i: int| 0 <= i < spec_triangles(*inner->left).len()
                    implies vec4_in_range(
                    (#[trigger] spec_triangles(*inner->left)[i]).pos,
                    TREE_VERT_BOUND as int + TABLE_COORD_BOUND as int,
                ) by {
                    assert(vec4_in_range(
                        spec_triangles(*inner->left)[i].pos,
                        TABLE_COORD_BOUND as int,
                    ));
                }
            }
            assert(rowsets_bounded(
                spec_regions(*inner->left),
                TABLE_COEFF_BOUND as int,
                TABLE_OFFSET_BOUND as int + 4
                    * (TABLE_COEFF_BOUND as int * TABLE_COORD_BOUND as int),
            )) by {
                assert forall|i: int, j: int|
                    0 <= i < spec_regions(*inner->left).len() && 0 <= j < spec_regions(
                        *inner->left,
                    )[i].len() implies row_in_range(
                    #[trigger] spec_regions(*inner->left)[i][j],
                    TABLE_COEFF_BOUND as int,
                    TABLE_OFFSET_BOUND as int + 4
                        * (TABLE_COEFF_BOUND as int * TABLE_COORD_BOUND as int),
                ) by {
                    assert(row_in_range(
                        spec_regions(*inner->left)[i][j],
                        TABLE_COEFF_BOUND as int,
                        TABLE_OFFSET_BOUND as int,
                    ));
                }
            }
            lemma_pair_bounds(
                inner,
                TREE_VERT_BOUND as int + TABLE_COORD_BOUND as int,
                TABLE_COEFF_BOUND as int,
                TABLE_OFFSET_BOUND as int + 4
                    * (TABLE_COEFF_BOUND as int * TABLE_COORD_BOUND as int),
            );
        }
        let r = Renderable::translated(Vec4 { c0: -1_500_000i128, c1: 0i128, c2: 0i128, c3: 0i128 }, inner);
        proof {
            lemma_translated_bounds(
                r,
                TREE_VERT_BOUND as int + TABLE_COORD_BOUND as int,
                TABLE_COORD_BOUND as int,
                TABLE_COEFF_BOUND as int,
                TABLE_OFFSET_BOUND as int + 4
                    * (TABLE_COEFF_BOUND as int * TABLE_COORD_BOUND as int),
            );
        }
        r
    }
}

} // verus!
