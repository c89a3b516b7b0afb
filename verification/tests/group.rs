//! Feeds the real icosahedral rotation group, generated with nalgebra's
//! unit quaternions, into the verified tree builder.

use hyperslice::linalg::Mat3;
use hyperslice::world::tree;

const PHI: f32 = 1.618_034;

fn rot(axis: [f32; 3], angle: f32) -> nalgebra::UnitQuaternion<f32> {
    nalgebra::UnitQuaternion::new(nalgebra::Vector3::from(axis).normalize() * angle)
}

fn icosahedral_group() -> Vec<nalgebra::UnitQuaternion<f32>> {
    let pentagons: [[f32; 3]; 6] = [
        [PHI, 1., 0.],
        [-PHI, 1., 0.],
        [0., PHI, 1.],
        [0., -PHI, 1.],
        [1., 0., PHI],
        [1., 0., -PHI],
    ];
    let triangles: [[f32; 3]; 10] = [
        [PHI - 1., PHI, 0.],
        [PHI - 1., -PHI, 0.],
        [0., PHI - 1., PHI],
        [0., PHI - 1., -PHI],
        [PHI, 0., PHI - 1.],
        [-PHI, 0., PHI - 1.],
        [1., 1., 1.],
        [1., 1., -1.],
        [1., -1., 1.],
        [1., -1., -1.],
    ];
    let rectangles: [[f32; 3]; 15] = [
        [1., 0., 0.],
        [0., 1., 0.],
        [0., 0., 1.],
        [1., PHI, PHI - 1.],
        [-1., PHI, PHI - 1.],
        [1., -PHI, PHI - 1.],
        [-1., -PHI, PHI - 1.],
        [PHI, PHI - 1., 1.],
        [PHI, PHI - 1., -1.],
        [-PHI, PHI - 1., 1.],
        [-PHI, PHI - 1., -1.],
        [PHI - 1., 1., PHI],
        [PHI - 1., -1., PHI],
        [PHI - 1., 1., -PHI],
        [PHI - 1., -1., -PHI],
    ];
    let pi = std::f32::consts::PI;
    let mut out = vec![nalgebra::UnitQuaternion::identity()];
    for v in pentagons.iter() {
        for n in 1..5 {
            out.push(rot(*v, n as f32 * 2. * pi / 5.));
        }
    }
    for v in triangles.iter() {
        for n in 1..3 {
            out.push(rot(*v, n as f32 * 2. * pi / 3.));
        }
    }
    for v in rectangles.iter() {
        out.push(rot(*v, pi));
    }
    out
}

fn rotation_block(q: &nalgebra::UnitQuaternion<f32>) -> Mat3 {
    let m = q.to_rotation_matrix();
    let m = m.matrix();
    let f = |x: f32| -> i128 { (x * 1_000_000.0).round() as i128 };
    Mat3 {
        m00: f(m[(0, 0)]),
        m01: f(m[(0, 1)]),
        m02: f(m[(0, 2)]),
        m10: f(m[(1, 0)]),
        m11: f(m[(1, 1)]),
        m12: f(m[(1, 2)]),
        m20: f(m[(2, 0)]),
        m21: f(m[(2, 1)]),
        m22: f(m[(2, 2)]),
    }
}

#[test]
fn icosahedral_group_expands_the_tree_block_per_element() {
    let quats = icosahedral_group();
    assert_eq!(quats.len(), 1 + 6 * 4 + 10 * 2 + 15);
    let rots: Vec<Mat3> = quats.iter().map(rotation_block).collect();
    for r in rots.iter() {
        for e in [r.m00, r.m01, r.m02, r.m10, r.m11, r.m12, r.m20, r.m21, r.m22] {
            assert!(e.abs() <= 1_000_001);
        }
    }
    let t = tree(&rots);
    assert_eq!(t.triangles().len(), 60 * 21);
    assert_eq!(t.regions().len(), 2);
}

#[test]
fn identity_element_reproduces_the_base_block() {
    let quats = icosahedral_group();
    let rots: Vec<Mat3> = quats.iter().map(rotation_block).collect();
    let t = tree(&rots);
    let vs = t.triangles();
    // The first block is the identity's: the apex spike sits on axis 0.
    assert_eq!(vs[0].pos.c0, 6_000_000);
    assert_eq!(vs[0].pos.c1, 0);
    assert_eq!(vs[0].pos.c2, 0);
    assert_eq!(vs[0].pos.c3, 0);
}
