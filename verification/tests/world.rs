use hyperslice::linalg::Mat3;
use hyperslice::world::{ground, tree, World};

const U: i128 = 1_000_000;

fn id3() -> Mat3 {
    Mat3 { m00: U, m01: 0, m02: 0, m10: 0, m11: U, m12: 0, m20: 0, m21: 0, m22: U }
}

/// A quarter turn of axes 1 and 2 (exact integer rotation of the tree's
/// symmetry subspace).
fn quarter_turn_12() -> Mat3 {
    Mat3 { m00: 0, m01: -U, m02: 0, m10: U, m11: 0, m12: 0, m20: 0, m21: 0, m22: U }
}

#[test]
fn ground_has_thirty_six_vertices_and_an_empty_region() {
    let g = ground();
    let vs = g.triangles();
    assert_eq!(vs.len(), 36);
    assert_eq!(vs[0].pos.c0, 0);
    assert_eq!(vs[0].pos.c1, -10 * U);
    assert_eq!(vs[0].pos.c2, -10 * U);
    assert_eq!(vs[0].pos.c3, -10 * U);
    let rs = g.regions();
    assert_eq!(rs.len(), 1);
    assert_eq!(rs[0].rows.len(), 1);
    assert_eq!(rs[0].rows[0].b, -U * U);
}

#[test]
fn tree_expands_one_block_per_rotation() {
    let rots = vec![id3(), quarter_turn_12()];
    let t = tree(&rots);
    let vs = t.triangles();
    assert_eq!(vs.len(), 2 * 21);
    // Identity block: the apex spike sits at six units up.
    assert_eq!(vs[0].pos.c0, 6 * U);
    assert_eq!((vs[0].pos.c1, vs[0].pos.c2, vs[0].pos.c3), (0, 0, 0));
    // The quarter turn maps local axis 1 to axis 2; the apex (on axis 0)
    // is fixed by every rotation of the symmetry subspace.
    assert_eq!(vs[21].pos.c0, 6 * U);
    assert_eq!((vs[21].pos.c1, vs[21].pos.c2, vs[21].pos.c3), (0, 0, 0));
    // The second foliage vertex (1, 1 - phi, phi, 0) turns into
    // (1, -phi, 1 - phi, 0).
    assert_eq!(vs[1].pos.c1, -618_034);
    assert_eq!(vs[1].pos.c2, 1_618_034);
    assert_eq!(vs[22].pos.c1, -1_618_034);
    assert_eq!(vs[22].pos.c2, -618_034);
    let rs = t.regions();
    assert_eq!(rs.len(), 2);
    assert_eq!(rs[0].rows.len(), 13);
    assert_eq!(rs[1].rows.len(), 14);
}

#[test]
fn world_assembles_ground_and_two_trees() {
    let w = World::default();
    let r = w.to_renderable(&vec![id3()]);
    let vs = r.triangles();
    assert_eq!(vs.len(), 36 + 2 * 21);
    // The world shift moves axis 0 only; the first ground vertex has
    // height zero, so it lands at -1.5 units.
    assert_eq!(vs[0].pos.c0, -1_500_000);
    assert_eq!(vs[0].pos.c1, -10 * U);
    let rs = r.regions();
    assert_eq!(rs.len(), 1 + 2 + 2);
}

#[test]
fn world_trees_sit_at_their_hidden_offsets() {
    let w = World::default();
    let r = w.to_renderable(&vec![id3()]);
    let vs = r.triangles();
    // First tree's apex: (6, 0, 0, 0), tree shift (0,0,0,-5), world shift
    // (-1.5, 0, 0, 0).
    assert_eq!(vs[36].pos.c0, 6 * U - 1_500_000);
    assert_eq!(vs[36].pos.c3, -5 * U);
    // Second tree's apex at hidden offset -10.
    assert_eq!(vs[36 + 21].pos.c0, 6 * U - 1_500_000);
    assert_eq!(vs[36 + 21].pos.c3, -10 * U);
}

#[test]
fn world_shader_has_one_section_per_region() {
    let w = World::default();
    let r = w.to_renderable(&vec![id3()]);
    let src = r.fragment_shader();
    assert!(src.starts_with("#version 300 es\n"));
    assert_eq!(src.matches("minmax = vec2(0.0, 0.999);").count(), 5);
    assert_eq!(src.matches("return false;").count(), 1);
}
