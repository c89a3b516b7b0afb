//! The composable scene graph of renderable primitives.
//!
//! A renderable is a flat enumeration of three variants: a primitive carrying
//! its own vertex stream and convex region decomposition, a pair
//! concatenating two children, and a translation wrapper. Every renderable
//! yields (a) a restartable vertex stream and (b) a list of convex regions;
//! the tree is built once at startup and never mutated.
//!
//! A translation wrapper adds its vector to every vertex position at
//! generation time and applies the inverse translation to every region row —
//! the contravariant transform that keeps the visibility predicate
//! geometrically consistent.

use vstd::prelude::*;

use crate::linalg::{in_range, row_apply, row_in_range, vec4_add, vec4_in_range, Row5, Vec4, COORD_BOUND};
use crate::region::{
    lemma_occludes_assoc, lemma_occludes_comm, lemma_translated_row, region_wf, rowsets_of,
    row_shift_ok, scene_occludes, shifted_row_rel, translate_region, Region,
};

verus! {

/// One vertex of the flat stream: a 4-dimensional position and a
/// 2-dimensional texture coordinate, both `UNIT`-scaled.
#[derive(Clone, Copy, PartialEq, Eq, Structural, Debug)]
pub struct Vertex {
    pub pos: Vec4,
    pub tu: i128,
    pub tv: i128,
}

/// A composable renderable: primitive geometry, a pair, or a translated
/// wrapper.
pub enum Renderable {
    Primitive { vertices: Vec<Vertex>, regions: Vec<Region> },
    Pair { left: Box<Renderable>, right: Box<Renderable> },
    Translated { shift: Vec4, inner: Box<Renderable> },
}

/// A vertex moved by a translation wrapper: position plus the shift vector,
/// texture coordinates untouched.
pub open spec fn shift_vertex(v: Vertex, t: Vec4) -> Vertex {
    Vertex {
        pos: Vec4 {
            c0: (v.pos.c0 + t.c0) as i128,
            c1: (v.pos.c1 + t.c1) as i128,
            c2: (v.pos.c2 + t.c2) as i128,
            c3: (v.pos.c3 + t.c3) as i128,
        },
        tu: v.tu,
        tv: v.tv,
    }
}

/// A region row moved by a translation wrapper: coefficients unchanged, the
/// offset moved by minus the row applied to the shift (the contravariant
/// rule).
pub open spec fn shift_row(r: Row5, t: Vec4) -> Row5 {
    Row5 {
        a0: r.a0,
        a1: r.a1,
        a2: r.a2,
        a3: r.a3,
        b: (r.b - (r.a0 * t.c0 + r.a1 * t.c1 + r.a2 * t.c2 + r.a3 * t.c3)) as i128,
    }
}

/// The vertex stream a renderable yields.
pub open spec fn spec_triangles(r: Renderable) -> Seq<Vertex>
    decreases r,
{
    match r {
        Renderable::Primitive { vertices, regions } => vertices@,
        Renderable::Pair { left, right } => spec_triangles(*left) + spec_triangles(*right),
        Renderable::Translated { shift, inner } => spec_triangles(*inner).map(
            |i: int, v: Vertex| shift_vertex(v, shift),
        ),
    }
}

/// The region list a renderable yields, one row set per convex region.
pub open spec fn spec_regions(r: Renderable) -> Seq<Seq<Row5>>
    decreases r,
{
    match r {
        Renderable::Primitive { vertices, regions } => rowsets_of(regions@),
        Renderable::Pair { left, right } => spec_regions(*left) + spec_regions(*right),
        Renderable::Translated { shift, inner } => spec_regions(*inner).map(
            |i: int, rows: Seq<Row5>| rows.map(|j: int, row: Row5| shift_row(row, shift)),
        ),
    }
}

/// The shifted position still fits the coordinate bound.
pub open spec fn vertex_shift_ok(v: Vertex, t: Vec4) -> bool {
    &&& in_range(v.pos.c0 + t.c0, COORD_BOUND as int)
    &&& in_range(v.pos.c1 + t.c1, COORD_BOUND as int)
    &&& in_range(v.pos.c2 + t.c2, COORD_BOUND as int)
    &&& in_range(v.pos.c3 + t.c3, COORD_BOUND as int)
}

/// Well-formedness of a renderable: every vertex and region row is within
/// the machine bounds, and each translation wrapper keeps them there.
pub open spec fn renderable_wf(r: Renderable) -> bool
    decreases r,
{
    match r {
        Renderable::Primitive { vertices, regions } => {
            &&& forall|i: int|
                0 <= i < vertices@.len() ==> vec4_in_range(
                    (#[trigger] vertices@[i]).pos,
                    COORD_BOUND as int,
                )
            &&& forall|i: int| 0 <= i < regions@.len() ==> region_wf(#[trigger] regions@[i])
        },
        Renderable::Pair { left, right } => renderable_wf(*left) && renderable_wf(*right),
        Renderable::Translated { shift, inner } => {
            &&& vec4_in_range(shift, COORD_BOUND as int)
            &&& renderable_wf(*inner)
            &&& forall|i: int|
                0 <= i < spec_triangles(*inner).len() ==> vertex_shift_ok(
                    #[trigger] spec_triangles(*inner)[i],
                    shift,
                )
            &&& forall|i: int, j: int|
                0 <= i < spec_regions(*inner).len() && 0 <= j < spec_regions(*inner)[i].len()
                    ==> row_shift_ok(#[trigger] spec_regions(*inner)[i][j], shift)
        },
    }
}

impl Renderable {
    /// Pair composition: concatenates the children's geometry and regions.
    pub fn pair(left: Renderable, right: Renderable) -> (r: Renderable)
        ensures
            r is Pair,
            *r->left == left,
            *r->right == right,
            spec_triangles(r) == spec_triangles(left) + spec_triangles(right),
            spec_regions(r) == spec_regions(left) + spec_regions(right),
            renderable_wf(left) && renderable_wf(right) ==> renderable_wf(r),
    {
        Renderable::Pair { left: Box::new(left), right: Box::new(right) }
    }

    /// Wraps a renderable so that its geometry is translated by `shift` and
    /// its regions by the inverse translation.
    pub fn translated(shift: Vec4, inner: Renderable) -> (r: Renderable)
        ensures
            r is Translated,
            r->shift == shift,
            *r->inner == inner,
    {
        Renderable::Translated { shift, inner: Box::new(inner) }
    }

    /// The flat vertex stream of this renderable, restartable at will.
    pub fn triangles(&self) -> (vs: Vec<Vertex>)
        requires
            renderable_wf(*self),
        ensures
            vs@ == spec_triangles(*self),
        decreases *self,
    {
        match self {
            Renderable::Primitive { vertices, regions } => copy_vertices(vertices),
            Renderable::Pair { left, right } => {
                let mut vs = left.triangles();
                let mut vr = right.triangles();
                vs.append(&mut vr);
                vs
            },
            Renderable::Translated { shift, inner } => {
                let base = inner.triangles();
                let mut vs: Vec<Vertex> = Vec::new();
                let n: usize = base.len();
                let mut i: usize = 0;
                while i < n
                    invariant
                        0 <= i <= n,
                        n == base@.len(),
                        base@ == spec_triangles(**inner),
                        renderable_wf(*self),
                        *self matches Renderable::Translated { shift: s2, inner: i2 } && s2
                            == *shift && *i2 == **inner,
                        vs@.len() == i,
                        forall|j: int| 0 <= j < i ==> vs@[j] == shift_vertex(base@[j], *shift),
                    decreases n - i,
                {
                    assert(vertex_shift_ok(base@[i as int], *shift));
                    let p = vec4_add(&base[i].pos, shift);
                    vs.push(Vertex { pos: p, tu: base[i].tu, tv: base[i].tv });
                    i = i + 1;
                }
                proof {
                    assert(vs@ =~= spec_triangles(**inner).map(
                        |j: int, v: Vertex| shift_vertex(v, *shift),
                    ));
                }
                vs
            },
        }
    }

    /// Compiles this renderable's regions into the accumulate pass's
    /// fragment source (see [`crate::shader::fragment_shader`]).
    pub fn fragment_shader(&self) -> (src: String)
        requires
            renderable_wf(*self),
        ensures
            src@ == crate::shader::spec_fragment_shader(spec_regions(*self)),
    {
        let rs = self.regions();
        crate::shader::fragment_shader(&rs)
    }

    /// The region list of this renderable, restartable at will.
    pub fn regions(&self) -> (rs: Vec<Region>)
        requires
            renderable_wf(*self),
        ensures
            rowsets_of(rs@) == spec_regions(*self),
            forall|i: int| 0 <= i < rs@.len() ==> region_wf(#[trigger] rs@[i]),
        decreases *self,
    {
        match self {
            Renderable::Primitive { vertices, regions } => {
                let rs = copy_regions(regions);
                proof {
                    assert(rowsets_of(rs@) =~= rowsets_of(regions@));
                }
                rs
            },
            Renderable::Pair { left, right } => {
                let mut rs = left.regions();
                let ghost lefts = rs@;
                let mut rr = right.regions();
                let ghost rights = rr@;
                rs.append(&mut rr);
                proof {
                    assert(rowsets_of(rs@) =~= rowsets_of(lefts) + rowsets_of(rights));
                }
                rs
            },
            Renderable::Translated { shift, inner } => {
                let base = inner.regions();
                let mut rs: Vec<Region> = Vec::new();
                let n: usize = base.len();
                let mut i: usize = 0;
                while i < n
                    invariant
                        0 <= i <= n,
                        n == base@.len(),
                        rowsets_of(base@) == spec_regions(**inner),
                        forall|k: int| 0 <= k < base@.len() ==> region_wf(#[trigger] base@[k]),
                        renderable_wf(*self),
                        *self matches Renderable::Translated { shift: s2, inner: i2 } && s2
                            == *shift && *i2 == **inner,
                        rs@.len() == i,
                        forall|j: int|
                            0 <= j < i ==> region_wf(#[trigger] rs@[j]) && rs@[j].rows@
                                == spec_regions(**inner)[j].map(
                                |k: int, row: Row5| shift_row(row, *shift),
                            ),
                    decreases n - i,
                {
                    proof {
                        assert(rowsets_of(base@)[i as int] == base@[i as int].rows@);
                        assert forall|j: int|
                            0 <= j < base@[i as int].rows@.len() implies row_shift_ok(
                            #[trigger] base@[i as int].rows@[j],
                            *shift,
                        ) by {
                            assert(spec_regions(**inner)[i as int][j] == base@[i as int].rows@[j]);
                        }
                    }
                    let moved = translate_region(&base[i], shift);
                    proof {
                        assert(moved.rows@ =~= spec_regions(**inner)[i as int].map(
                            |k: int, row: Row5| shift_row(row, *shift),
                        )) by {
                            assert(spec_regions(**inner)[i as int] == base@[i as int].rows@);
                            assert forall|k: int|
                                0 <= k < base@[i as int].rows@.len() implies moved.rows@[k]
                                == shift_row(base@[i as int].rows@[k], *shift) by {
                                assert(shifted_row_rel(
                                    base@[i as int].rows@[k],
                                    moved.rows@[k],
                                    *shift,
                                ));
                            }
                        }
                    }
                    rs.push(moved);
                    i = i + 1;
                }
                proof {
                    assert(rowsets_of(rs@) =~= spec_regions(**inner).map(
                        |i: int, rows: Seq<Row5>| rows.map(
                            |j: int, row: Row5| shift_row(row, *shift),
                        ),
                    ));
                }
                rs
            },
        }
    }
}

/// Copies a vertex stream (primitives hand out copies of their table).
fn copy_vertices(src: &Vec<Vertex>) -> (out: Vec<Vertex>)
    ensures
        out@ == src@,
{
    let mut out: Vec<Vertex> = Vec::new();
    let n: usize = src.len();
    let mut i: usize = 0;
    while i < n
        invariant
            0 <= i <= n,
            n == src@.len(),
            out@.len() == i,
            forall|j: int| 0 <= j < i ==> out@[j] == src@[j],
        decreases n - i,
    {
        out.push(src[i]);
        i = i + 1;
    }
    proof {
        assert(out@ =~= src@);
    }
    out
}

/// Copies a region list row for row.
fn copy_regions(src: &Vec<Region>) -> (out: Vec<Region>)
    ensures
        out@.len() == src@.len(),
        forall|i: int| 0 <= i < src@.len() ==> (#[trigger] out@[i]).rows@ == src@[i].rows@,
{
    let mut out: Vec<Region> = Vec::new();
    let n: usize = src.len();
    let mut i: usize = 0;
    while i < n
        invariant
            0 <= i <= n,
            n == src@.len(),
            out@.len() == i,
            forall|j: int| 0 <= j < i ==> (#[trigger] out@[j]).rows@ == src@[j].rows@,
        decreases n - i,
    {
        let mut rows: Vec<Row5> = Vec::new();
        let m: usize = src[i].rows.len();
        let mut j: usize = 0;
        while j < m
            invariant
                0 <= j <= m,
                0 <= i < src@.len(),
                m == src@[i as int].rows@.len(),
                rows@.len() == j,
                forall|k: int| 0 <= k < j ==> rows@[k] == src@[i as int].rows@[k],
            decreases m - j,
        {
            rows.push(src[i].rows[j]);
            j = j + 1;
        }
        proof {
            assert(rows@ =~= src@[i as int].rows@);
        }
        out.push(Region { rows });
        i = i + 1;
    }
    out
}

/// Every vertex position of the stream lies within `b`.
pub open spec fn verts_bounded(s: Seq<Vertex>, b: int) -> bool {
    forall|i: int| 0 <= i < s.len() ==> vec4_in_range((#[trigger] s[i]).pos, b)
}

/// Every row of every region has coefficients within `cb` and offset
/// within `ob`.
pub open spec fn rowsets_bounded(rs: Seq<Seq<Row5>>, cb: int, ob: int) -> bool {
    forall|i: int, j: int|
        0 <= i < rs.len() && 0 <= j < rs[i].len() ==> row_in_range(#[trigger] rs[i][j], cb, ob)
}

/// Bound propagation through a pair: the concatenated streams keep the
/// children's bounds, and the pair is well-formed when its children are.
pub proof fn lemma_pair_bounds(p: Renderable, vb: int, cb: int, ob: int)
    requires
        p is Pair,
        renderable_wf(*p->left),
        renderable_wf(*p->right),
        verts_bounded(spec_triangles(*p->left), vb),
        verts_bounded(spec_triangles(*p->right), vb),
        rowsets_bounded(spec_regions(*p->left), cb, ob),
        rowsets_bounded(spec_regions(*p->right), cb, ob),
    ensures
        renderable_wf(p),
        verts_bounded(spec_triangles(p), vb),
        rowsets_bounded(spec_regions(p), cb, ob),
{
    let lt = spec_triangles(*p->left);
    let rt = spec_triangles(*p->right);
    assert forall|i: int| 0 <= i < spec_triangles(p).len() implies vec4_in_range(
        (#[trigger] spec_triangles(p)[i]).pos,
        vb,
    ) by {
        if i < lt.len() {
            assert(spec_triangles(p)[i] == lt[i]);
        } else {
            assert(spec_triangles(p)[i] == rt[i - lt.len()]);
        }
    }
    let lr = spec_regions(*p->left);
    let rr = spec_regions(*p->right);
    assert forall|i: int, j: int|
        0 <= i < spec_regions(p).len() && 0 <= j < spec_regions(p)[i].len() implies row_in_range(
        #[trigger] spec_regions(p)[i][j],
        cb,
        ob,
    ) by {
        if i < lr.len() {
            assert(spec_regions(p)[i] == lr[i]);
        } else {
            assert(spec_regions(p)[i] == rr[i - lr.len()]);
        }
    }
}

/// Bound propagation through a translation wrapper: the machine bounds the
/// wrapper needs hold when the shifted quantities stay within the global
/// limits, and the shifted streams carry widened bounds.
pub proof fn lemma_translated_bounds(p: Renderable, vb: int, tb: int, cb: int, ob: int)
    requires
        p is Translated,
        renderable_wf(*p->inner),
        verts_bounded(spec_triangles(*p->inner), vb),
        rowsets_bounded(spec_regions(*p->inner), cb, ob),
        vec4_in_range(p->shift, tb),
        0 <= vb,
        0 <= cb,
        0 <= tb,
        tb <= COORD_BOUND as int,
        vb + tb <= COORD_BOUND as int,
        ob + 4 * (cb * tb) <= crate::linalg::OFFSET_BOUND as int,
    ensures
        renderable_wf(p),
        verts_bounded(spec_triangles(p), vb + tb),
        rowsets_bounded(spec_regions(p), cb, ob + 4 * (cb * tb)),
{
    let t = p->shift;
    let vs = spec_triangles(*p->inner);
    let rs = spec_regions(*p->inner);
    assert forall|i: int| 0 <= i < vs.len() implies vertex_shift_ok(#[trigger] vs[i], t) by {
        assert(vec4_in_range(vs[i].pos, vb));
    }
    assert forall|i: int, j: int|
        0 <= i < rs.len() && 0 <= j < rs[i].len() implies row_shift_ok(
        #[trigger] rs[i][j],
        t,
    ) by {
        let r = rs[i][j];
        crate::linalg::lemma_abs_mul(r.a0 as int, t.c0 as int, cb, tb);
        crate::linalg::lemma_abs_mul(r.a1 as int, t.c1 as int, cb, tb);
        crate::linalg::lemma_abs_mul(r.a2 as int, t.c2 as int, cb, tb);
        crate::linalg::lemma_abs_mul(r.a3 as int, t.c3 as int, cb, tb);
    }
    assert(renderable_wf(p));
    assert forall|i: int| 0 <= i < spec_triangles(p).len() implies vec4_in_range(
        (#[trigger] spec_triangles(p)[i]).pos,
        vb + tb,
    ) by {
        assert(spec_triangles(p)[i] == shift_vertex(vs[i], t));
        assert(vec4_in_range(vs[i].pos, vb));
    }
    assert forall|i: int, j: int|
        0 <= i < spec_regions(p).len() && 0 <= j < spec_regions(p)[i].len() implies row_in_range(
        #[trigger] spec_regions(p)[i][j],
        cb,
        ob + 4 * (cb * tb),
    ) by {
        assert(spec_regions(p)[i] == rs[i].map(|k: int, row: Row5| shift_row(row, t)));
        assert(spec_regions(p)[i][j] == shift_row(rs[i][j], t));
        let r = rs[i][j];
        crate::linalg::lemma_abs_mul(r.a0 as int, t.c0 as int, cb, tb);
        crate::linalg::lemma_abs_mul(r.a1 as int, t.c1 as int, cb, tb);
        crate::linalg::lemma_abs_mul(r.a2 as int, t.c2 as int, cb, tb);
        crate::linalg::lemma_abs_mul(r.a3 as int, t.c3 as int, cb, tb);
    }
}

/// Law (pair composition is concatenative for the vertex stream): the pair's
/// stream is exactly the left child's vertices followed by the right
/// child's — no vertex dropped, none duplicated.
pub proof fn lemma_pair_vertices(p: Renderable)
    requires
        p is Pair,
    ensures
        spec_triangles(p).len() == spec_triangles(*p->left).len() + spec_triangles(
            *p->right,
        ).len(),
        forall|i: int|
            0 <= i < spec_triangles(*p->left).len() ==> spec_triangles(p)[i] == spec_triangles(
                *p->left,
            )[i],
        forall|i: int|
            0 <= i < spec_triangles(*p->right).len() ==> spec_triangles(p)[spec_triangles(
                *p->left,
            ).len() + i] == spec_triangles(*p->right)[i],
{
}

/// Law (pair composition is commutative for occlusion): swapping the two
/// children of a pair never changes whether a camera-to-target segment is
/// reported occluded.
pub proof fn lemma_pair_occlusion_comm(p: Renderable, q: Renderable, cam: Vec4, tgt: Vec4)
    requires
        p is Pair,
        q is Pair,
        *p->left == *q->right,
        *p->right == *q->left,
    ensures
        scene_occludes(spec_regions(p), cam, tgt) == scene_occludes(spec_regions(q), cam, tgt),
{
    lemma_occludes_comm(spec_regions(*p->left), spec_regions(*p->right), cam, tgt);
}

/// Law (pair composition is associative for occlusion): regrouping nested
/// pairs never changes whether a camera-to-target segment is reported
/// occluded.
pub proof fn lemma_pair_occlusion_assoc(p: Renderable, q: Renderable, cam: Vec4, tgt: Vec4)
    requires
        p is Pair,
        *p->left is Pair,
        q is Pair,
        *q->right is Pair,
        *(*p->left)->left == *q->left,
        *(*p->left)->right == *(*q->right)->left,
        *p->right == *(*q->right)->right,
    ensures
        scene_occludes(spec_regions(p), cam, tgt) == scene_occludes(spec_regions(q), cam, tgt),
{
    let a = spec_regions(*(*p->left)->left);
    let b = spec_regions(*(*p->left)->right);
    let c = spec_regions(*p->right);
    assert(spec_regions(*p->left) == a + b);
    assert(spec_regions(p) == (a + b) + c);
    assert(spec_regions(*q->right) == b + c);
    assert(spec_regions(q) == a + (b + c));
    lemma_occludes_assoc(a, b, c, cam, tgt);
}

/// Law (translation wrapper, vertex half): every vertex position of the
/// wrapped renderable equals the base vertex position plus the translation
/// vector, with the texture coordinate untouched.
pub proof fn lemma_translated_vertices(p: Renderable, i: int)
    requires
        p is Translated,
        renderable_wf(p),
        0 <= i < spec_triangles(*p->inner).len(),
    ensures
        spec_triangles(p).len() == spec_triangles(*p->inner).len(),
        spec_triangles(p)[i].pos.c0 == spec_triangles(*p->inner)[i].pos.c0 + p->shift.c0,
        spec_triangles(p)[i].pos.c1 == spec_triangles(*p->inner)[i].pos.c1 + p->shift.c1,
        spec_triangles(p)[i].pos.c2 == spec_triangles(*p->inner)[i].pos.c2 + p->shift.c2,
        spec_triangles(p)[i].pos.c3 == spec_triangles(*p->inner)[i].pos.c3 + p->shift.c3,
        spec_triangles(p)[i].tu == spec_triangles(*p->inner)[i].tu,
        spec_triangles(p)[i].tv == spec_triangles(*p->inner)[i].tv,
{
    assert(vertex_shift_ok(spec_triangles(*p->inner)[i], p->shift));
    assert(spec_triangles(p)[i] == shift_vertex(spec_triangles(*p->inner)[i], p->shift));
}

/// Law: a translation wrapper moves a renderable's whole occlusion volume
/// with it — the wrapped scene reports a translated camera-to-target
/// segment occluded exactly when the base scene reports the base segment
/// occluded.
pub proof fn lemma_translated_scene_occlusion(
    p: Renderable,
    cam: Vec4,
    tgt: Vec4,
    camt: Vec4,
    tgtt: Vec4,
)
    requires
        p is Translated,
        renderable_wf(p),
        camt.c0 == cam.c0 + p->shift.c0,
        camt.c1 == cam.c1 + p->shift.c1,
        camt.c2 == cam.c2 + p->shift.c2,
        camt.c3 == cam.c3 + p->shift.c3,
        tgtt.c0 == tgt.c0 + p->shift.c0,
        tgtt.c1 == tgt.c1 + p->shift.c1,
        tgtt.c2 == tgt.c2 + p->shift.c2,
        tgtt.c3 == tgt.c3 + p->shift.c3,
    ensures
        scene_occludes(spec_regions(p), camt, tgtt) == scene_occludes(
            spec_regions(*p->inner),
            cam,
            tgt,
        ),
{
    let t = p->shift;
    let rs = spec_regions(*p->inner);
    let rst = spec_regions(p);
    assert(rst.len() == rs.len());
    assert forall|i: int| 0 <= i < rs.len() implies crate::region::region_hit(
        #[trigger] rst[i],
        camt,
        tgtt,
    ) == crate::region::region_hit(rs[i], cam, tgt) by {
        assert(rst[i] == rs[i].map(|k: int, row: Row5| shift_row(row, t)));
        assert forall|j: int| 0 <= j < rs[i].len() implies shifted_row_rel(
            rs[i][j],
            #[trigger] rst[i][j],
            t,
        ) by {
            assert(row_shift_ok(rs[i][j], t));
            assert(rst[i][j] == shift_row(rs[i][j], t));
        }
        crate::region::lemma_translated_region_hit(rs[i], rst[i], t, cam, tgt, camt, tgtt);
    }
    if scene_occludes(rst, camt, tgtt) {
        let i = choose|i: int| 0 <= i < rst.len() && crate::region::region_hit(
            #[trigger] rst[i],
            camt,
            tgtt,
        );
        assert(crate::region::region_hit(rs[i], cam, tgt));
    }
    if scene_occludes(rs, cam, tgt) {
        let i = choose|i: int| 0 <= i < rs.len() && crate::region::region_hit(
            #[trigger] rs[i],
            cam,
            tgt,
        );
        assert(crate::region::region_hit(rst[i], camt, tgtt));
    }
}

/// Law (translation wrapper, region half — the contravariant round trip):
/// every region row of the wrapped renderable evaluates at a translated
/// point exactly as the base row evaluates at the base point.
pub proof fn lemma_translated_region_round_trip(
    p: Renderable,
    i: int,
    j: int,
    x: Vec4,
    xt: Vec4,
)
    requires
        p is Translated,
        renderable_wf(p),
        0 <= i < spec_regions(*p->inner).len(),
        0 <= j < spec_regions(*p->inner)[i].len(),
        xt.c0 == x.c0 + p->shift.c0,
        xt.c1 == x.c1 + p->shift.c1,
        xt.c2 == x.c2 + p->shift.c2,
        xt.c3 == x.c3 + p->shift.c3,
    ensures
        spec_regions(p).len() == spec_regions(*p->inner).len(),
        spec_regions(p)[i].len() == spec_regions(*p->inner)[i].len(),
        row_apply(spec_regions(p)[i][j], xt) == row_apply(spec_regions(*p->inner)[i][j], x),
{
    let base = spec_regions(*p->inner)[i][j];
    assert(row_shift_ok(base, p->shift));
    assert(spec_regions(p)[i] == spec_regions(*p->inner)[i].map(
        |k: int, row: Row5| shift_row(row, p->shift),
    ));
    assert(spec_regions(p)[i][j] == shift_row(base, p->shift));
    assert(shifted_row_rel(base, shift_row(base, p->shift), p->shift));
    lemma_translated_row(base, shift_row(base, p->shift), p->shift, x, xt);
}

} // verus!
