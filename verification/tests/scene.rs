use hyperslice::linalg::{Row5, Vec4};
use hyperslice::region::{occludes, Region};
use hyperslice::scene::{Renderable, Vertex};

const U: i128 = 1_000_000;
const U2: i128 = 1_000_000_000_000;

fn vert_at(c0: i128, tu: i128) -> Vertex {
    Vertex { pos: Vec4 { c0, c1: 0, c2: 0, c3: 0 }, tu, tv: U }
}

/// A primitive with one vertex and one hidden-axis slab region at the
/// given offset.
fn block(c0: i128, lo3: i128, hi3: i128) -> Renderable {
    Renderable::Primitive {
        vertices: vec![vert_at(c0, U)],
        regions: vec![Region {
            rows: vec![
                Row5 { a0: 0, a1: 0, a2: 0, a3: -U, b: lo3 * U },
                Row5 { a0: 0, a1: 0, a2: 0, a3: U, b: -hi3 * U },
            ],
        }],
    }
}

#[test]
fn pair_concatenates_vertex_streams() {
    let a = block(U, 0, 2 * U);
    let b = block(2 * U, 0, 2 * U);
    let p = Renderable::pair(a, b);
    let vs = p.triangles();
    assert_eq!(vs.len(), 2);
    assert_eq!(vs[0].pos.c0, U);
    assert_eq!(vs[1].pos.c0, 2 * U);
}

#[test]
fn pair_swap_keeps_the_occlusion_answer() {
    let p = Renderable::pair(block(U, 0, 2 * U), block(2 * U, 5 * U, 7 * U));
    let q = Renderable::pair(block(2 * U, 5 * U, 7 * U), block(U, 0, 2 * U));
    let cam = Vec4 { c0: 0, c1: 0, c2: 0, c3: -U };
    let through = Vec4 { c0: 0, c1: 0, c2: 0, c3: 8 * U };
    let outside = Vec4 { c0: 0, c1: 0, c2: 0, c3: -2 * U };
    let rp = p.regions();
    let rq = q.regions();
    assert_eq!(
        occludes(&rp, &cam, &through),
        occludes(&rq, &cam, &through)
    );
    assert_eq!(
        occludes(&rp, &cam, &outside),
        occludes(&rq, &cam, &outside)
    );
    assert!(occludes(&rp, &cam, &through));
    assert!(!occludes(&rp, &cam, &outside));
}

#[test]
fn pair_regrouping_keeps_the_occlusion_answer() {
    let a = || block(U, 0, 2 * U);
    let b = || block(2 * U, 3 * U, 4 * U);
    let c = || block(3 * U, 5 * U, 7 * U);
    let left = Renderable::pair(Renderable::pair(a(), b()), c());
    let right = Renderable::pair(a(), Renderable::pair(b(), c()));
    let rl = left.regions();
    let rr = right.regions();
    let cam = Vec4 { c0: 0, c1: 0, c2: 0, c3: -U };
    for hi in [1i128, 3, 5, 8] {
        let tgt = Vec4 { c0: 0, c1: 0, c2: 0, c3: hi * U };
        assert_eq!(occludes(&rl, &cam, &tgt), occludes(&rr, &cam, &tgt));
    }
}

#[test]
fn translation_shifts_every_vertex_and_keeps_texcoords() {
    let base = Renderable::pair(block(U, 0, 2 * U), block(2 * U, 0, 2 * U));
    let shift = Vec4 { c0: 3 * U, c1: -U, c2: 0, c3: 5 * U };
    let base_vs = base.triangles();
    let moved = Renderable::translated(shift, base);
    let vs = moved.triangles();
    assert_eq!(vs.len(), base_vs.len());
    for (m, b) in vs.iter().zip(base_vs.iter()) {
        assert_eq!(m.pos.c0, b.pos.c0 + 3 * U);
        assert_eq!(m.pos.c1, b.pos.c1 - U);
        assert_eq!(m.pos.c2, b.pos.c2);
        assert_eq!(m.pos.c3, b.pos.c3 + 5 * U);
        assert_eq!(m.tu, b.tu);
        assert_eq!(m.tv, b.tv);
    }
}

#[test]
fn translation_transforms_region_rows_contravariantly() {
    let shift = Vec4 { c0: 0, c1: 0, c2: 0, c3: 5 * U };
    let moved = Renderable::translated(shift, block(U, 0, 2 * U));
    let rs = moved.regions();
    assert_eq!(rs.len(), 1);
    // Row (0,0,0,-U | 0) keeps its coefficients; offset becomes 0 - (-U * 5U).
    assert_eq!(rs[0].rows[0].a3, -U);
    assert_eq!(rs[0].rows[0].b, 5 * U2);
    assert_eq!(rs[0].rows[1].a3, U);
    assert_eq!(rs[0].rows[1].b, -2 * U2 - 5 * U2);
}

#[test]
fn translated_row_round_trip_on_points() {
    // h'(x + v) == h(x): evaluate both sides on concrete numbers.
    let shift = Vec4 { c0: 7 * U, c1: 0, c2: -2 * U, c3: 5 * U };
    let base_row = Row5 { a0: 3, a1: -4, a2: 5, a3: -6, b: 9 * U };
    let moved = Renderable::translated(
        shift,
        Renderable::Primitive {
            vertices: vec![],
            regions: vec![Region { rows: vec![base_row] }],
        },
    );
    let rs = moved.regions();
    let h2 = rs[0].rows[0];
    let x = Vec4 { c0: 11 * U, c1: 13 * U, c2: -17 * U, c3: 19 * U };
    let xt = Vec4 { c0: x.c0 + shift.c0, c1: x.c1 + shift.c1, c2: x.c2 + shift.c2, c3: x.c3 + shift.c3 };
    let base_val = base_row.a0 * x.c0 + base_row.a1 * x.c1 + base_row.a2 * x.c2
        + base_row.a3 * x.c3 + base_row.b;
    let moved_val = h2.a0 * xt.c0 + h2.a1 * xt.c1 + h2.a2 * xt.c2 + h2.a3 * xt.c3 + h2.b;
    assert_eq!(moved_val, base_val);
}

#[test]
fn nested_translations_compose() {
    let inner = Renderable::translated(
        Vec4 { c0: 0, c1: 0, c2: 0, c3: -5 * U },
        block(6 * U, 0, 2 * U),
    );
    let outer = Renderable::translated(Vec4 { c0: -U, c1: 0, c2: 0, c3: 0 }, inner);
    let vs = outer.triangles();
    assert_eq!(vs[0].pos.c0, 5 * U);
    assert_eq!(vs[0].pos.c3, -5 * U);
}
