//! Convex half-space regions and the analytic occlusion test.
//!
//! A region is an ordered list of affine rows; a point is inside the region's
//! convex polytope when every row evaluates non-positive there. A fragment is
//! occluded when the segment from the camera to the fragment, parametrized
//! over `[0, 1)` (the endpoint excluded so a fragment never occludes itself),
//! enters any region of the scene.
//!
//! The test per region is the half-space segment clip: a scalar interval
//! starts at `[0, 1)`; for every row with values `x` at the camera and `y` at
//! the target, if `x > y` the segment enters the half-space and the lower
//! bound tightens to `x / (x - y)`, if `x < y` it leaves and the upper bound
//! tightens to the same quotient. A row constant along the segment has no
//! crossing: a negative one empties the interval outright (a region holding
//! an everywhere-negative row is thus permanently empty — the reference
//! scene's ground uses exactly that to mark a non-occluding region), a
//! non-negative one changes nothing. The segment intersects the polytope iff
//! the upper bound stays strictly above the lower one. All bounds are kept
//! as exact fractions with positive denominators and compared by
//! cross-multiplication.

use vstd::prelude::*;

use crate::linalg::{
    in_range, lemma_abs_mul, row_apply, row_eval, row_in_range, vec4_in_range, Row5, Vec4,
    COEFF_BOUND, COORD_BOUND, OFFSET_BOUND,
};

verus! {

/// Bound on the numerator or denominator of an interval fraction.
pub const SPAN_BOUND: i128 = 3_000_000_000_000_000_000;

/// One convex occluding volume: the conjunction of its half-space rows.
pub struct Region {
    pub rows: Vec<Row5>,
}

pub open spec fn region_wf(r: Region) -> bool {
    forall|i: int|
        0 <= i < r.rows@.len() ==> row_in_range(
            #[trigger] r.rows@[i],
            COEFF_BOUND as int,
            OFFSET_BOUND as int,
        )
}

pub open spec fn regions_wf(rs: Seq<Region>) -> bool {
    forall|i: int| 0 <= i < rs.len() ==> region_wf(#[trigger] rs[i])
}

/// `a/b < c/d`, for fractions with positive denominators `b` and `d`.
pub open spec fn frac_lt(an: int, ad: int, bn: int, bd: int) -> bool {
    an * bd < bn * ad
}

/// The clip interval: lower bound `ln/ld`, upper bound `hn/hd`, both
/// denominators positive. Exec mirror of the spec-level 4-tuple.
pub struct Span {
    pub ln: i128,
    pub ld: i128,
    pub hn: i128,
    pub hd: i128,
}

pub open spec fn span_view(s: Span) -> (int, int, int, int) {
    (s.ln as int, s.ld as int, s.hn as int, s.hd as int)
}

pub open spec fn span_ok(s: (int, int, int, int)) -> bool {
    &&& s.1 > 0
    &&& s.3 > 0
    &&& in_range(s.0, SPAN_BOUND as int)
    &&& in_range(s.1, SPAN_BOUND as int)
    &&& in_range(s.2, SPAN_BOUND as int)
    &&& in_range(s.3, SPAN_BOUND as int)
}

/// The interval every region's test starts from: `[0/1, 1/1)`.
pub open spec fn init_span() -> (int, int, int, int) {
    (0, 1, 1, 1)
}

/// Tightens the interval by one row, given the row's values `x` at the
/// camera and `y` at the target.
pub open spec fn clip_step(s: (int, int, int, int), x: int, y: int) -> (int, int, int, int) {
    if x > y {
        if frac_lt(s.0, s.1, x, x - y) {
            (x, x - y, s.2, s.3)
        } else {
            s
        }
    } else if x < y {
        if frac_lt(-x, y - x, s.2, s.3) {
            (s.0, s.1, -x, y - x)
        } else {
            s
        }
    } else {
        if x < 0 {
            (s.0, s.1, -1, 1)
        } else {
            s
        }
    }
}

/// Folds [`clip_step`] over all rows of a region.
pub open spec fn clip_rows(
    rows: Seq<Row5>,
    cam: Vec4,
    tgt: Vec4,
    s: (int, int, int, int),
) -> (int, int, int, int)
    decreases rows.len(),
{
    if rows.len() == 0 {
        s
    } else {
        clip_rows(
            rows.skip(1),
            cam,
            tgt,
            clip_step(s, row_apply(rows[0], cam), row_apply(rows[0], tgt)),
        )
    }
}

/// The camera-to-target segment enters the region's polytope.
pub open spec fn region_hit(rows: Seq<Row5>, cam: Vec4, tgt: Vec4) -> bool {
    let s = clip_rows(rows, cam, tgt, init_span());
    frac_lt(s.0, s.1, s.2, s.3)
}

/// A fragment at `tgt` is blocked from the camera at `cam` iff any region of
/// the scene reports intersection: occlusion is the union over all regions.
/// A scene is a sequence of row sets, one per region.
pub open spec fn scene_occludes(rs: Seq<Seq<Row5>>, cam: Vec4, tgt: Vec4) -> bool {
    exists|i: int| 0 <= i < rs.len() && region_hit(#[trigger] rs[i], cam, tgt)
}

/// The row sets of a list of regions.
pub open spec fn rowsets_of(regions: Seq<Region>) -> Seq<Seq<Row5>> {
    regions.map(|i: int, r: Region| r.rows@)
}

/// `a/b <= c/d`, for fractions with positive denominators `b` and `d`.
pub open spec fn frac_le(an: int, ad: int, bn: int, bd: int) -> bool {
    an * bd <= bn * ad
}

/// The row with values `x` at the camera and `y` at the target is satisfied
/// (non-positive) at segment parameter `tn/td`, the denominator cleared:
/// `x + t * (y - x) <= 0` times `td`.
pub open spec fn row_sat_at(x: int, y: int, tn: int, td: int) -> bool {
    x * td + (y - x) * tn <= 0
}

/// Transitivity of fraction order under positive denominators.
proof fn lemma_frac_le_trans(an: int, ad: int, bn: int, bd: int, cn: int, cd: int)
    by (nonlinear_arith)
    requires
        ad > 0,
        bd > 0,
        cd > 0,
        an * bd <= bn * ad,
        bn * cd <= cn * bd,
    ensures
        an * cd <= cn * ad,
{
}

proof fn lemma_frac_lt_le_trans(an: int, ad: int, bn: int, bd: int, cn: int, cd: int)
    by (nonlinear_arith)
    requires
        ad > 0,
        bd > 0,
        cd > 0,
        an * bd < bn * ad,
        bn * cd <= cn * bd,
    ensures
        an * cd < cn * ad,
{
}

proof fn lemma_frac_le_lt_trans(an: int, ad: int, bn: int, bd: int, cn: int, cd: int)
    by (nonlinear_arith)
    requires
        ad > 0,
        bd > 0,
        cd > 0,
        an * bd <= bn * ad,
        bn * cd < cn * bd,
    ensures
        an * cd < cn * ad,
{
}

/// The fold keeps the interval well-placed: positive denominators, a lower
/// bound at or above zero, an upper bound at or below one.
proof fn lemma_clip_preserves(rows: Seq<Row5>, cam: Vec4, tgt: Vec4, s: (int, int, int, int))
    requires
        s.1 > 0,
        s.3 > 0,
        s.0 >= 0,
        s.2 <= s.3,
    ensures
        clip_rows(rows, cam, tgt, s).1 > 0,
        clip_rows(rows, cam, tgt, s).3 > 0,
        clip_rows(rows, cam, tgt, s).0 >= 0,
        clip_rows(rows, cam, tgt, s).2 <= clip_rows(rows, cam, tgt, s).3,
    decreases rows.len(),
{
    if rows.len() > 0 {
        let x = row_apply(rows[0], cam);
        let y = row_apply(rows[0], tgt);
        let s1 = clip_step(s, x, y);
        if x > y && frac_lt(s.0, s.1, x, x - y) {
            assert(x > 0) by (nonlinear_arith)
                requires
                    s.0 >= 0,
                    s.1 > 0,
                    x - y > 0,
                    s.0 * (x - y) < x * s.1,
            ;
        }
        if x < y && frac_lt(-x, y - x, s.2, s.3) {
            assert(-x <= y - x) by (nonlinear_arith)
                requires
                    s.2 <= s.3,
                    s.3 > 0,
                    y - x > 0,
                    (-x) * s.3 < s.2 * (y - x),
            ;
        }
        lemma_clip_preserves(rows.skip(1), cam, tgt, s1);
    }
}

/// The induction behind [`lemma_region_hit_sound`]: a parameter inside the
/// folded interval was inside the starting interval and satisfies every row
/// processed, provided no row is constant along the segment.
proof fn lemma_clip_sound_rec(
    rows: Seq<Row5>,
    cam: Vec4,
    tgt: Vec4,
    s: (int, int, int, int),
    tn: int,
    td: int,
)
    requires
        td > 0,
        s.1 > 0,
        s.3 > 0,
        forall|i: int|
            0 <= i < rows.len() ==> row_apply(#[trigger] rows[i], cam) != row_apply(rows[i], tgt),
        frac_le(
            clip_rows(rows, cam, tgt, s).0,
            clip_rows(rows, cam, tgt, s).1,
            tn,
            td,
        ),
        frac_lt(
            tn,
            td,
            clip_rows(rows, cam, tgt, s).2,
            clip_rows(rows, cam, tgt, s).3,
        ),
    ensures
        frac_le(s.0, s.1, tn, td),
        frac_lt(tn, td, s.2, s.3),
        forall|i: int|
            0 <= i < rows.len() ==> row_sat_at(
                row_apply(#[trigger] rows[i], cam),
                row_apply(rows[i], tgt),
                tn,
                td,
            ),
    decreases rows.len(),
{
    if rows.len() > 0 {
        let x = row_apply(rows[0], cam);
        let y = row_apply(rows[0], tgt);
        let s1 = clip_step(s, x, y);
        assert(x != y);
        assert(s1.1 > 0 && s1.3 > 0);
        assert(forall|i: int|
            0 <= i < rows.skip(1).len() ==> row_apply(#[trigger] rows.skip(1)[i], cam)
                != row_apply(rows.skip(1)[i], tgt));
        lemma_clip_sound_rec(rows.skip(1), cam, tgt, s1, tn, td);
        if x > y {
            if frac_lt(s.0, s.1, x, x - y) {
                // The interval was tightened to the entering bound, so the
                // parameter sits at or above it and the old bound too.
                assert(frac_le(x, x - y, tn, td));
                lemma_frac_lt_le_trans(s.0, s.1, x, x - y, tn, td);
                assert(row_sat_at(x, y, tn, td)) by (nonlinear_arith)
                    requires
                        x * td <= tn * (x - y),
                        row_sat_at(x, y, tn, td) == (x * td + (y - x) * tn <= 0),
                ;
            } else {
                // The entering bound lay at or below the old lower bound.
                assert(frac_le(x, x - y, s.0, s.1));
                lemma_frac_le_trans(x, x - y, s.0, s.1, tn, td);
                assert(row_sat_at(x, y, tn, td)) by (nonlinear_arith)
                    requires
                        x * td <= tn * (x - y),
                        row_sat_at(x, y, tn, td) == (x * td + (y - x) * tn <= 0),
                ;
            }
        } else {
            if frac_lt(-x, y - x, s.2, s.3) {
                assert(frac_lt(tn, td, -x, y - x));
                lemma_frac_le_lt_trans(tn, td, -x, y - x, s.2, s.3);
                assert(row_sat_at(x, y, tn, td)) by (nonlinear_arith)
                    requires
                        tn * (y - x) < (-x) * td,
                        row_sat_at(x, y, tn, td) == (x * td + (y - x) * tn <= 0),
                ;
            } else {
                assert(frac_le(s.2, s.3, -x, y - x));
                lemma_frac_lt_le_trans(tn, td, s.2, s.3, -x, y - x);
                assert(row_sat_at(x, y, tn, td)) by (nonlinear_arith)
                    requires
                        tn * (y - x) < (-x) * td,
                        row_sat_at(x, y, tn, td) == (x * td + (y - x) * tn <= 0),
                ;
            }
        }
        assert forall|i: int| 0 <= i < rows.len() implies row_sat_at(
            row_apply(#[trigger] rows[i], cam),
            row_apply(rows[i], tgt),
            tn,
            td,
        ) by {
            if i > 0 {
                assert(rows.skip(1)[i - 1] == rows[i]);
            }
        }
    }
}

/// Law (soundness of the clip test): when a region none of whose rows is
/// constant along the segment reports intersection, the computed entering
/// bound is itself a parameter within [0, 1) of the camera-to-target
/// segment at which every one of the region's constraints is satisfied —
/// the segment really enters the convex polytope there.
pub proof fn lemma_region_hit_sound(rows: Seq<Row5>, cam: Vec4, tgt: Vec4)
    requires
        region_hit(rows, cam, tgt),
        forall|i: int|
            0 <= i < rows.len() ==> row_apply(#[trigger] rows[i], cam) != row_apply(rows[i], tgt),
    ensures
        ({
            let s = clip_rows(rows, cam, tgt, init_span());
            &&& s.1 > 0
            &&& s.0 >= 0
            &&& frac_lt(s.0, s.1, 1, 1)
            &&& forall|i: int|
                0 <= i < rows.len() ==> row_sat_at(
                    row_apply(#[trigger] rows[i], cam),
                    row_apply(rows[i], tgt),
                    s.0,
                    s.1,
                )
        }),
{
    let s = clip_rows(rows, cam, tgt, init_span());
    lemma_clip_preserves(rows, cam, tgt, init_span());
    assert(frac_le(s.0, s.1, s.0, s.1));
    lemma_frac_lt_le_trans(s.0, s.1, s.2, s.3, 1, 1);
    lemma_clip_sound_rec(rows, cam, tgt, init_span(), s.0, s.1);
}

/// The induction behind [`lemma_region_hit_complete`]: a parameter that
/// satisfies every remaining row strictly stays inside the folded interval.
proof fn lemma_clip_complete_rec(
    rows: Seq<Row5>,
    cam: Vec4,
    tgt: Vec4,
    s: (int, int, int, int),
    tn: int,
    td: int,
)
    requires
        td > 0,
        s.1 > 0,
        s.3 > 0,
        frac_le(s.0, s.1, tn, td),
        frac_lt(tn, td, s.2, s.3),
        forall|i: int|
            0 <= i < rows.len() ==> row_apply(#[trigger] rows[i], cam) != row_apply(rows[i], tgt),
        forall|i: int|
            0 <= i < rows.len() ==> row_apply(#[trigger] rows[i], cam) * td + (row_apply(
                rows[i],
                tgt,
            ) - row_apply(rows[i], cam)) * tn < 0,
    ensures
        frac_le(
            clip_rows(rows, cam, tgt, s).0,
            clip_rows(rows, cam, tgt, s).1,
            tn,
            td,
        ),
        frac_lt(
            tn,
            td,
            clip_rows(rows, cam, tgt, s).2,
            clip_rows(rows, cam, tgt, s).3,
        ),
        clip_rows(rows, cam, tgt, s).1 > 0,
        clip_rows(rows, cam, tgt, s).3 > 0,
    decreases rows.len(),
{
    if rows.len() > 0 {
        let x = row_apply(rows[0], cam);
        let y = row_apply(rows[0], tgt);
        let s1 = clip_step(s, x, y);
        assert(x != y);
        assert(x * td + (y - x) * tn < 0);
        if x > y && frac_lt(s.0, s.1, x, x - y) {
            assert(frac_le(x, x - y, tn, td)) by (nonlinear_arith)
                requires
                    x * td + (y - x) * tn < 0,
                    frac_le(x, x - y, tn, td) == (x * td <= tn * (x - y)),
            ;
        }
        if x < y && frac_lt(-x, y - x, s.2, s.3) {
            assert(frac_lt(tn, td, -x, y - x)) by (nonlinear_arith)
                requires
                    x * td + (y - x) * tn < 0,
                    frac_lt(tn, td, -x, y - x) == (tn * (y - x) < (-x) * td),
            ;
        }
        assert(s1.1 > 0 && s1.3 > 0);
        assert(frac_le(s1.0, s1.1, tn, td));
        assert(frac_lt(tn, td, s1.2, s1.3));
        assert(forall|i: int|
            0 <= i < rows.skip(1).len() ==> row_apply(#[trigger] rows.skip(1)[i], cam)
                != row_apply(rows.skip(1)[i], tgt));
        assert(forall|i: int|
            0 <= i < rows.skip(1).len() ==> row_apply(#[trigger] rows.skip(1)[i], cam) * td + (
            row_apply(rows.skip(1)[i], tgt) - row_apply(rows.skip(1)[i], cam)) * tn < 0);
        lemma_clip_complete_rec(rows.skip(1), cam, tgt, s1, tn, td);
    }
}

/// Law (completeness of the clip test): if some parameter `tn/td` within
/// [0, 1) of the camera-to-target segment satisfies every row of the region
/// strictly — the segment passes through the polytope's interior, and no
/// row is constant along the segment — the test reports intersection.
pub proof fn lemma_region_hit_complete(rows: Seq<Row5>, cam: Vec4, tgt: Vec4, tn: int, td: int)
    requires
        td > 0,
        tn >= 0,
        tn < td,
        forall|i: int|
            0 <= i < rows.len() ==> row_apply(#[trigger] rows[i], cam) != row_apply(rows[i], tgt),
        forall|i: int|
            0 <= i < rows.len() ==> row_apply(#[trigger] rows[i], cam) * td + (row_apply(
                rows[i],
                tgt,
            ) - row_apply(rows[i], cam)) * tn < 0,
    ensures
        region_hit(rows, cam, tgt),
{
    assert(frac_le(0, 1, tn, td));
    assert(frac_lt(tn, td, 1, 1));
    lemma_clip_complete_rec(rows, cam, tgt, init_span(), tn, td);
    let s = clip_rows(rows, cam, tgt, init_span());
    lemma_frac_le_lt_trans(s.0, s.1, tn, td, s.2, s.3);
}

/// Exact fraction comparison by cross-multiplication.
fn frac_lt_exec(an: i128, ad: i128, bn: i128, bd: i128) -> (r: bool)
    requires
        in_range(an as int, SPAN_BOUND as int),
        in_range(ad as int, SPAN_BOUND as int),
        in_range(bn as int, SPAN_BOUND as int),
        in_range(bd as int, SPAN_BOUND as int),
    ensures
        r == frac_lt(an as int, ad as int, bn as int, bd as int),
{
    proof {
        lemma_abs_mul(an as int, bd as int, SPAN_BOUND as int, SPAN_BOUND as int);
        lemma_abs_mul(bn as int, ad as int, SPAN_BOUND as int, SPAN_BOUND as int);
    }
    an * bd < bn * ad
}

/// Runs the half-space clip test of one region on the camera-to-target
/// segment, exactly as [`region_hit`] states it.
pub fn region_hits(region: &Region, cam: &Vec4, tgt: &Vec4) -> (hit: bool)
    requires
        region_wf(*region),
        vec4_in_range(*cam, COORD_BOUND as int),
        vec4_in_range(*tgt, COORD_BOUND as int),
    ensures
        hit == region_hit(region.rows@, *cam, *tgt),
{
    let ghost all: Seq<Row5> = region.rows@;
    let mut span = Span { ln: 0, ld: 1, hn: 1, hd: 1 };
    let n: usize = region.rows.len();
    let mut i: usize = 0;
    proof {
        assert(all.skip(0) =~= all);
    }
    while i < n
        invariant
            0 <= i <= n,
            n == all.len(),
            all == region.rows@,
            region_wf(*region),
            vec4_in_range(*cam, COORD_BOUND as int),
            vec4_in_range(*tgt, COORD_BOUND as int),
            span_ok(span_view(span)),
            clip_rows(all, *cam, *tgt, init_span()) == clip_rows(
                all.skip(i as int),
                *cam,
                *tgt,
                span_view(span),
            ),
        decreases n - i,
    {
        let ghost pre = span_view(span);
        let x: i128 = row_eval(&region.rows[i], cam);
        let y: i128 = row_eval(&region.rows[i], tgt);
        if x > y {
            if frac_lt_exec(span.ln, span.ld, x, x - y) {
                span.ln = x;
                span.ld = x - y;
            }
        } else if x < y {
            if frac_lt_exec(-x, y - x, span.hn, span.hd) {
                span.hn = -x;
                span.hd = y - x;
            }
        } else {
            if x < 0 {
                span.hn = -1;
                span.hd = 1;
            }
        }
        proof {
            assert(span_view(span) == clip_step(pre, x as int, y as int));
            assert(all.skip(i as int)[0] == all[i as int]);
            assert(all.skip(i as int).skip(1) =~= all.skip(i as int + 1));
        }
        i = i + 1;
    }
    proof {
        assert(all.skip(n as int) =~= Seq::<Row5>::empty());
    }
    frac_lt_exec(span.ln, span.ld, span.hn, span.hd)
}

/// Tests the camera-to-target segment against every region of the scene:
/// true iff some region blocks it.
pub fn occludes(regions: &Vec<Region>, cam: &Vec4, tgt: &Vec4) -> (occ: bool)
    requires
        regions_wf(regions@),
        vec4_in_range(*cam, COORD_BOUND as int),
        vec4_in_range(*tgt, COORD_BOUND as int),
    ensures
        occ == scene_occludes(rowsets_of(regions@), *cam, *tgt),
{
    let n: usize = regions.len();
    let mut i: usize = 0;
    while i < n
        invariant
            0 <= i <= n,
            n == regions@.len(),
            regions_wf(regions@),
            vec4_in_range(*cam, COORD_BOUND as int),
            vec4_in_range(*tgt, COORD_BOUND as int),
            forall|j: int| 0 <= j < i ==> !region_hit(#[trigger] regions@[j].rows@, *cam, *tgt),
        decreases n - i,
    {
        if region_hits(&regions[i], cam, tgt) {
            assert(rowsets_of(regions@)[i as int] == regions@[i as int].rows@);
            return true;
        }
        i = i + 1;
    }
    assert forall|j: int| 0 <= j < regions@.len() implies !region_hit(
        #[trigger] rowsets_of(regions@)[j],
        *cam,
        *tgt,
    ) by {
        assert(rowsets_of(regions@)[j] == regions@[j].rows@);
    }
    false
}

/// The row a translation wrapper gives a half-space: coefficients unchanged,
/// offset moved by minus the row applied to the translation direction — the
/// contravariant transform of a linear functional under translation.
pub open spec fn shifted_row_rel(r: Row5, s: Row5, t: Vec4) -> bool {
    &&& s.a0 == r.a0
    &&& s.a1 == r.a1
    &&& s.a2 == r.a2
    &&& s.a3 == r.a3
    &&& s.b == r.b - (r.a0 * t.c0 + r.a1 * t.c1 + r.a2 * t.c2 + r.a3 * t.c3)
}

/// The translated offset still fits the machine bound.
pub open spec fn row_shift_ok(r: Row5, t: Vec4) -> bool {
    in_range(
        r.b - (r.a0 * t.c0 + r.a1 * t.c1 + r.a2 * t.c2 + r.a3 * t.c3),
        OFFSET_BOUND as int,
    )
}

/// Applies the inverse translation to one half-space row.
pub fn translate_row(r: &Row5, t: &Vec4) -> (s: Row5)
    requires
        row_in_range(*r, COEFF_BOUND as int, OFFSET_BOUND as int),
        vec4_in_range(*t, COORD_BOUND as int),
        row_shift_ok(*r, *t),
    ensures
        shifted_row_rel(*r, s, *t),
        row_in_range(s, COEFF_BOUND as int, OFFSET_BOUND as int),
{
    proof {
        lemma_abs_mul(r.a0 as int, t.c0 as int, COEFF_BOUND as int, COORD_BOUND as int);
        lemma_abs_mul(r.a1 as int, t.c1 as int, COEFF_BOUND as int, COORD_BOUND as int);
        lemma_abs_mul(r.a2 as int, t.c2 as int, COEFF_BOUND as int, COORD_BOUND as int);
        lemma_abs_mul(r.a3 as int, t.c3 as int, COEFF_BOUND as int, COORD_BOUND as int);
    }
    Row5 {
        a0: r.a0,
        a1: r.a1,
        a2: r.a2,
        a3: r.a3,
        b: r.b - (r.a0 * t.c0 + r.a1 * t.c1 + r.a2 * t.c2 + r.a3 * t.c3),
    }
}

/// Law (contravariant round trip): the translated row evaluates at the
/// translated point exactly as the base row evaluates at the base point,
/// for every point.
pub proof fn lemma_translated_row(r: Row5, s: Row5, t: Vec4, x: Vec4, xt: Vec4)
    requires
        shifted_row_rel(r, s, t),
        xt.c0 == x.c0 + t.c0,
        xt.c1 == x.c1 + t.c1,
        xt.c2 == x.c2 + t.c2,
        xt.c3 == x.c3 + t.c3,
    ensures
        row_apply(s, xt) == row_apply(r, x),
{
    assert(s.a0 * xt.c0 == r.a0 * x.c0 + r.a0 * t.c0) by (nonlinear_arith)
        requires
            s.a0 == r.a0,
            xt.c0 == x.c0 + t.c0,
    ;
    assert(s.a1 * xt.c1 == r.a1 * x.c1 + r.a1 * t.c1) by (nonlinear_arith)
        requires
            s.a1 == r.a1,
            xt.c1 == x.c1 + t.c1,
    ;
    assert(s.a2 * xt.c2 == r.a2 * x.c2 + r.a2 * t.c2) by (nonlinear_arith)
        requires
            s.a2 == r.a2,
            xt.c2 == x.c2 + t.c2,
    ;
    assert(s.a3 * xt.c3 == r.a3 * x.c3 + r.a3 * t.c3) by (nonlinear_arith)
        requires
            s.a3 == r.a3,
            xt.c3 == x.c3 + t.c3,
    ;
}

/// Every row of a region, translated.
pub open spec fn shifted_rows_rel(rows: Seq<Row5>, srows: Seq<Row5>, t: Vec4) -> bool {
    &&& srows.len() == rows.len()
    &&& forall|i: int| 0 <= i < rows.len() ==> shifted_row_rel(rows[i], #[trigger] srows[i], t)
}

pub open spec fn region_shift_ok(r: Region, t: Vec4) -> bool {
    forall|i: int| 0 <= i < r.rows@.len() ==> row_shift_ok(#[trigger] r.rows@[i], t)
}

/// Applies the inverse translation to every row of a region.
pub fn translate_region(region: &Region, t: &Vec4) -> (s: Region)
    requires
        region_wf(*region),
        vec4_in_range(*t, COORD_BOUND as int),
        region_shift_ok(*region, *t),
    ensures
        shifted_rows_rel(region.rows@, s.rows@, *t),
        region_wf(s),
{
    let n: usize = region.rows.len();
    let mut rows: Vec<Row5> = Vec::new();
    let mut i: usize = 0;
    while i < n
        invariant
            0 <= i <= n,
            n == region.rows@.len(),
            region_wf(*region),
            vec4_in_range(*t, COORD_BOUND as int),
            region_shift_ok(*region, *t),
            rows@.len() == i,
            forall|j: int|
                0 <= j < i ==> shifted_row_rel(region.rows@[j], #[trigger] rows@[j], *t)
                    && row_in_range(rows@[j], COEFF_BOUND as int, OFFSET_BOUND as int),
        decreases n - i,
    {
        let s = translate_row(&region.rows[i], t);
        rows.push(s);
        i = i + 1;
    }
    Region { rows }
}

/// Law: translating a region and translating the segment by the same vector
/// leave the clip interval unchanged row for row, so the occlusion answer is
/// the same — a translated occluder blocks the translated segment exactly
/// when the base occluder blocks the base segment.
pub proof fn lemma_translated_region_hit(
    rows: Seq<Row5>,
    srows: Seq<Row5>,
    t: Vec4,
    cam: Vec4,
    tgt: Vec4,
    camt: Vec4,
    tgtt: Vec4,
)
    requires
        shifted_rows_rel(rows, srows, t),
        camt.c0 == cam.c0 + t.c0,
        camt.c1 == cam.c1 + t.c1,
        camt.c2 == cam.c2 + t.c2,
        camt.c3 == cam.c3 + t.c3,
        tgtt.c0 == tgt.c0 + t.c0,
        tgtt.c1 == tgt.c1 + t.c1,
        tgtt.c2 == tgt.c2 + t.c2,
        tgtt.c3 == tgt.c3 + t.c3,
    ensures
        region_hit(srows, camt, tgtt) == region_hit(rows, cam, tgt),
{
    lemma_translated_clip(rows, srows, t, cam, tgt, camt, tgtt, init_span());
}

proof fn lemma_translated_clip(
    rows: Seq<Row5>,
    srows: Seq<Row5>,
    t: Vec4,
    cam: Vec4,
    tgt: Vec4,
    camt: Vec4,
    tgtt: Vec4,
    s: (int, int, int, int),
)
    requires
        shifted_rows_rel(rows, srows, t),
        camt.c0 == cam.c0 + t.c0,
        camt.c1 == cam.c1 + t.c1,
        camt.c2 == cam.c2 + t.c2,
        camt.c3 == cam.c3 + t.c3,
        tgtt.c0 == tgt.c0 + t.c0,
        tgtt.c1 == tgt.c1 + t.c1,
        tgtt.c2 == tgt.c2 + t.c2,
        tgtt.c3 == tgt.c3 + t.c3,
    ensures
        clip_rows(srows, camt, tgtt, s) == clip_rows(rows, cam, tgt, s),
    decreases rows.len(),
{
    if rows.len() > 0 {
        lemma_translated_row(rows[0], srows[0], t, cam, camt);
        lemma_translated_row(rows[0], srows[0], t, tgt, tgtt);
        assert(shifted_rows_rel(rows.skip(1), srows.skip(1), t));
        lemma_translated_clip(
            rows.skip(1),
            srows.skip(1),
            t,
            cam,
            tgt,
            camt,
            tgtt,
            clip_step(s, row_apply(rows[0], cam), row_apply(rows[0], tgt)),
        );
    }
}

/// Law: a union is a union — a scene made of two region lists occludes a
/// segment exactly when one of the two lists does on its own.
pub proof fn lemma_occludes_concat(a: Seq<Seq<Row5>>, b: Seq<Seq<Row5>>, cam: Vec4, tgt: Vec4)
    ensures
        scene_occludes(a + b, cam, tgt) == (scene_occludes(a, cam, tgt) || scene_occludes(
            b,
            cam,
            tgt,
        )),
{
    if scene_occludes(a + b, cam, tgt) {
        let i = choose|i: int| 0 <= i < (a + b).len() && region_hit((a + b)[i], cam, tgt);
        if i < a.len() {
            assert((a + b)[i] == a[i]);
            assert(scene_occludes(a, cam, tgt));
        } else {
            assert((a + b)[i] == b[i - a.len()]);
            assert(scene_occludes(b, cam, tgt));
        }
    }
    if scene_occludes(a, cam, tgt) {
        let i = choose|i: int| 0 <= i < a.len() && region_hit(a[i], cam, tgt);
        assert((a + b)[i] == a[i]);
        assert(scene_occludes(a + b, cam, tgt));
    }
    if scene_occludes(b, cam, tgt) {
        let i = choose|i: int| 0 <= i < b.len() && region_hit(b[i], cam, tgt);
        assert((a + b)[a.len() + i] == b[i]);
        assert(scene_occludes(a + b, cam, tgt));
    }
}

/// Law (pair commutativity): swapping the children of a pair never changes
/// whether a segment is reported occluded.
pub proof fn lemma_occludes_comm(a: Seq<Seq<Row5>>, b: Seq<Seq<Row5>>, cam: Vec4, tgt: Vec4)
    ensures
        scene_occludes(a + b, cam, tgt) == scene_occludes(b + a, cam, tgt),
{
    lemma_occludes_concat(a, b, cam, tgt);
    lemma_occludes_concat(b, a, cam, tgt);
}

/// Law (pair associativity): regrouping pairs never changes whether a
/// segment is reported occluded.
pub proof fn lemma_occludes_assoc(
    a: Seq<Seq<Row5>>,
    b: Seq<Seq<Row5>>,
    c: Seq<Seq<Row5>>,
    cam: Vec4,
    tgt: Vec4,
)
    ensures
        scene_occludes((a + b) + c, cam, tgt) == scene_occludes(a + (b + c), cam, tgt),
{
    lemma_occludes_concat(a + b, c, cam, tgt);
    lemma_occludes_concat(a, b, cam, tgt);
    lemma_occludes_concat(a, b + c, cam, tgt);
    lemma_occludes_concat(b, c, cam, tgt);
}

/// Law: a single half-space region reports no intersection for a segment
/// whose row value is non-negative at both endpoints (and not constant —
/// a constant row has no crossing to clip by): the upper bound never rises
/// above the lower one.
pub proof fn lemma_single_halfspace_positive_side(h: Row5, cam: Vec4, tgt: Vec4)
    requires
        row_apply(h, cam) >= 0,
        row_apply(h, tgt) >= 0,
        row_apply(h, cam) != row_apply(h, tgt),
    ensures
        !region_hit(seq![h], cam, tgt),
{
    let rows: Seq<Row5> = seq![h];
    assert(rows.skip(1) =~= Seq::<Row5>::empty());
    assert(rows[0] == h);
    let x: int = row_apply(h, cam);
    let y: int = row_apply(h, tgt);
    let s1: (int, int, int, int) = clip_step(init_span(), x, y);
    assert(clip_rows(rows, cam, tgt, init_span()) == clip_rows(rows.skip(1), cam, tgt, s1));
    assert(clip_rows(rows.skip(1), cam, tgt, s1) == s1);
    if x > y {
        assert(x > 0);
        assert(s1 == (x, x - y, 1int, 1int));
        assert(!frac_lt(x, x - y, 1, 1));
    } else if x < y {
        assert(y > 0);
        assert(s1 == (0int, 1int, -x, y - x));
        assert(!frac_lt(0, 1, -x, y - x));
    } else {
        assert(false);
    }
}

/// Law: a single half-space region whose row value crosses from positive at
/// the camera to negative at the target reports intersection, and the lower
/// bound is exactly the analytic crossing parameter `x / (x - y)`.
pub proof fn lemma_single_halfspace_crossing(h: Row5, cam: Vec4, tgt: Vec4)
    requires
        row_apply(h, cam) > 0,
        row_apply(h, tgt) < 0,
    ensures
        region_hit(seq![h], cam, tgt),
        clip_rows(seq![h], cam, tgt, init_span()).0 == row_apply(h, cam),
        clip_rows(seq![h], cam, tgt, init_span()).1 == row_apply(h, cam) - row_apply(h, tgt),
        clip_rows(seq![h], cam, tgt, init_span()).2 == 1,
        clip_rows(seq![h], cam, tgt, init_span()).3 == 1,
{
    let rows: Seq<Row5> = seq![h];
    assert(rows.skip(1) =~= Seq::<Row5>::empty());
    assert(rows[0] == h);
    let x: int = row_apply(h, cam);
    let y: int = row_apply(h, tgt);
    let s1: (int, int, int, int) = clip_step(init_span(), x, y);
    assert(clip_rows(rows, cam, tgt, init_span()) == clip_rows(rows.skip(1), cam, tgt, s1));
    assert(clip_rows(rows.skip(1), cam, tgt, s1) == s1);
    assert(frac_lt(0, 1, x, x - y));
    assert(s1 == (x, x - y, 1int, 1int));
    assert(frac_lt(x, x - y, 1, 1));
}

/// Law: a single half-space region whose row value is non-positive at both
/// endpoints (and not constant) reports intersection — the segment stays
/// inside the half-space and the interval keeps its initial bounds.
pub proof fn lemma_single_halfspace_inside(h: Row5, cam: Vec4, tgt: Vec4)
    requires
        row_apply(h, cam) <= 0,
        row_apply(h, tgt) <= 0,
        row_apply(h, cam) != row_apply(h, tgt),
    ensures
        region_hit(seq![h], cam, tgt),
{
    let rows: Seq<Row5> = seq![h];
    assert(rows.skip(1) =~= Seq::<Row5>::empty());
    assert(rows[0] == h);
    let x: int = row_apply(h, cam);
    let y: int = row_apply(h, tgt);
    let s1: (int, int, int, int) = clip_step(init_span(), x, y);
    assert(clip_rows(rows, cam, tgt, init_span()) == clip_rows(rows.skip(1), cam, tgt, s1));
    assert(clip_rows(rows.skip(1), cam, tgt, s1) == s1);
    if x > y {
        assert(!frac_lt(0, 1, x, x - y));
        assert(s1 == init_span());
    } else {
        assert(x < y);
        assert(!frac_lt(-x, y - x, 1, 1));
        assert(s1 == init_span());
    }
    assert(frac_lt(0, 1, 1, 1));
}

/// Law: a region holding a row that is constant and negative along the
/// segment never reports intersection: the interval is emptied outright.
/// The reference scene marks its ground non-occluding this way.
pub proof fn lemma_constant_negative_row_empties(h: Row5, cam: Vec4, tgt: Vec4)
    requires
        row_apply(h, cam) == row_apply(h, tgt),
        row_apply(h, cam) < 0,
    ensures
        !region_hit(seq![h], cam, tgt),
{
    let rows: Seq<Row5> = seq![h];
    assert(rows.skip(1) =~= Seq::<Row5>::empty());
    assert(rows[0] == h);
    let x: int = row_apply(h, cam);
    let y: int = row_apply(h, tgt);
    let s1: (int, int, int, int) = clip_step(init_span(), x, y);
    assert(clip_rows(rows, cam, tgt, init_span()) == clip_rows(rows.skip(1), cam, tgt, s1));
    assert(clip_rows(rows.skip(1), cam, tgt, s1) == s1);
    assert(s1 == (0int, 1int, -1int, 1int));
    assert(!frac_lt(0, 1, -1, 1));
}

} // verus!
