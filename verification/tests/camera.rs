use hyperslice::camera::{world_motion, FourCamera, Orientation};
use hyperslice::linalg::{Mat3, Vec4};

const U: i128 = 1_000_000;

fn id3() -> Mat3 {
    Mat3 { m00: U, m01: 0, m02: 0, m10: 0, m11: U, m12: 0, m20: 0, m21: 0, m22: U }
}

/// A quarter turn of axes 0 and 1 — an exact integer horizontal rotation.
fn quarter_turn_01() -> Mat3 {
    Mat3 { m00: 0, m01: -U, m02: 0, m10: U, m11: 0, m12: 0, m20: 0, m21: 0, m22: U }
}

#[test]
fn tilt_clamps_at_upper_limit() {
    let mut o = Orientation::default();
    o.tilt(200_000_000);
    assert_eq!(o.vertical, 90_000_000);
}

#[test]
fn tilt_clamps_at_lower_limit() {
    let mut o = Orientation::default();
    o.tilt(-3_000_000_000);
    assert_eq!(o.vertical, -90_000_000);
}

#[test]
fn tilt_sequence_stays_within_ninety_degrees() {
    let mut o = Orientation::default();
    let deltas: [i64; 7] = [50_000_000, 70_000_000, -10_000_000, i64::MAX, -1, i64::MIN, 5];
    for d in deltas {
        o.tilt(d);
        assert!(-90_000_000 <= o.vertical && o.vertical <= 90_000_000);
    }
}

#[test]
fn tilt_accumulates_when_inside_the_limits() {
    let mut o = Orientation::default();
    o.tilt(10_000_000);
    o.tilt(-4_000_000);
    assert_eq!(o.vertical, 6_000_000);
}

#[test]
fn hidden_row_ignores_horizontal_rotation_and_fov() {
    let pos = Vec4 { c0: 1_000_000, c1: 2_000_000, c2: 3_000_000, c3: 4_000_000 };
    let cam1 = FourCamera {
        position: pos,
        orientation: Orientation { vertical: 0, horizontal: id3() },
        fov_tan: U,
    };
    let cam2 = FourCamera {
        position: pos,
        orientation: Orientation { vertical: 0, horizontal: quarter_turn_01() },
        fov_tan: 3 * U,
    };
    let m1 = cam1.projection_matrix(0, U);
    let m2 = cam2.projection_matrix(0, U);
    assert_eq!(m1.r3, m2.r3);
}

#[test]
fn hidden_row_is_the_signed_hidden_distance_functional() {
    let pos = Vec4 { c0: 0, c1: 0, c2: 0, c3: 2_000_000 };
    let cam = FourCamera {
        position: pos,
        orientation: Orientation { vertical: 0, horizontal: id3() },
        fov_tan: U,
    };
    let m = cam.projection_matrix(0, U);
    assert_eq!(m.r3.a0, 0);
    assert_eq!(m.r3.a1, 0);
    assert_eq!(m.r3.a2, 0);
    assert_eq!(m.r3.a3, -(U * U * U));
    assert_eq!(m.r3.b, U * U * U * 2_000_000);
    // At the camera's own hidden coordinate the row vanishes.
    let x = Vec4 { c0: 7 * U, c1: -3 * U, c2: 9 * U, c3: 2_000_000 };
    let v = m.r3.a0 * x.c0 + m.r3.a1 * x.c1 + m.r3.a2 * x.c2 + m.r3.a3 * x.c3 + m.r3.b;
    assert_eq!(v, 0);
}

#[test]
fn visible_rows_carry_the_fov_factor() {
    let cam = FourCamera::default();
    let m = cam.projection_matrix(0, U);
    // Identity heading, tangent one: the forward row reads axis 2 scaled
    // by UNIT^3 and nothing else.
    assert_eq!(m.r2.a2, U * U * U);
    assert_eq!(m.r2.a0, 0);
    assert_eq!(m.r2.a3, 0);
    assert_eq!(m.r2.b, 0);
}

#[test]
fn motion_along_hidden_axis_ignores_heading() {
    let o1 = Orientation { vertical: 0, horizontal: id3() };
    let o2 = Orientation { vertical: 0, horizontal: quarter_turn_01() };
    let intent = Vec4 { c0: 0, c1: 0, c2: 0, c3: U };
    let d1 = world_motion(&o1, &intent);
    let d2 = world_motion(&o2, &intent);
    assert_eq!(d1.c3, U * U);
    assert_eq!(d2.c3, U * U);
}

#[test]
fn motion_in_the_visible_subspace_follows_heading() {
    let o = Orientation { vertical: 0, horizontal: quarter_turn_01() };
    let forward = Vec4 { c0: U, c1: 0, c2: 0, c3: 0 };
    let d = world_motion(&o, &forward);
    // The quarter turn maps axis 0 to axis 1.
    assert_eq!((d.c0, d.c1, d.c2, d.c3), (0, U * U, 0, 0));
}
