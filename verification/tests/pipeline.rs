use hyperslice::camera::{FourCamera, Orientation};
use hyperslice::linalg::{Mat3, Row5, Vec4};
use hyperslice::pipeline::{
    accumulate, fragment_visible, move_camera, plan_frame, AppState, Key, Msg, VrStatus,
};
use hyperslice::region::Region;

const U: i128 = 1_000_000;

fn id3() -> Mat3 {
    Mat3 { m00: U, m01: 0, m02: 0, m10: 0, m11: U, m12: 0, m20: 0, m21: 0, m22: U }
}

fn quarter_turn_01() -> Mat3 {
    Mat3 { m00: 0, m01: -U, m02: 0, m10: U, m11: 0, m12: 0, m20: 0, m21: 0, m22: U }
}

#[test]
fn display_discovery_reaches_known_and_presenting_in_order() {
    let mut s = AppState::init();
    assert_eq!(s.vr, VrStatus::Searching);
    s.update(Msg::VrDisplaysListed { count: 1 });
    assert_eq!(s.vr, VrStatus::Known);
    s.update(Msg::Click);
    assert_eq!(s.vr, VrStatus::RequestedPresentation);
    s.update(Msg::VrPresenting);
    assert_eq!(s.vr, VrStatus::Presenting);
}

#[test]
fn display_discovery_with_no_display_ends_not_found() {
    let mut s = AppState::init();
    s.update(Msg::VrDisplaysListed { count: 0 });
    assert_eq!(s.vr, VrStatus::NotFound);
    // A click without a known display changes nothing.
    s.update(Msg::Click);
    assert_eq!(s.vr, VrStatus::NotFound);
}

#[test]
fn missing_display_interface_ends_not_supported() {
    let mut s = AppState::init();
    s.update(Msg::VrUnsupported);
    assert_eq!(s.vr, VrStatus::NotSupported);
    // Late discovery results cannot resurrect the search.
    s.update(Msg::VrDisplaysListed { count: 2 });
    assert_eq!(s.vr, VrStatus::NotSupported);
}

#[test]
fn presentation_cannot_be_entered_without_a_request() {
    let mut s = AppState::init();
    s.update(Msg::VrDisplaysListed { count: 1 });
    s.update(Msg::VrPresenting);
    assert_eq!(s.vr, VrStatus::Known);
}

#[test]
fn keys_set_and_clear() {
    let mut s = AppState::init();
    s.update(Msg::KeyDown(Key::Forward));
    s.update(Msg::KeyDown(Key::HiddenIn));
    assert!(s.keys.forward);
    assert!(s.keys.hidden_in);
    s.update(Msg::KeyUp(Key::Forward));
    assert!(!s.keys.forward);
    assert!(s.keys.hidden_in);
}

#[test]
fn slider_input_clamps_into_range() {
    let mut s = AppState::init();
    s.update(Msg::SliderInput { value: 25 });
    assert_eq!(s.slice_slider, 10);
    s.update(Msg::SliderInput { value: -3 });
    assert_eq!(s.slice_slider, 1);
    s.update(Msg::SliderInput { value: 7 });
    assert_eq!(s.slice_slider, 7);
}

#[test]
fn look_replaces_heading_and_clamps_tilt() {
    let mut s = AppState::init();
    s.update(Msg::Look { heading: quarter_turn_01(), tilt_delta: 200_000_000 });
    assert_eq!(s.camera.orientation.horizontal, quarter_turn_01());
    assert_eq!(s.camera.orientation.vertical, 90_000_000);
}

#[test]
fn forward_key_moves_one_unit_per_second() {
    let mut cam = FourCamera::default();
    let mut s = AppState::init();
    s.update(Msg::KeyDown(Key::Forward));
    move_camera(&mut cam, &s.keys, 1_000_000);
    assert_eq!(cam.position.c2, U);
    assert_eq!((cam.position.c0, cam.position.c1, cam.position.c3), (0, 0, 0));
    // Half a second more moves half a unit.
    move_camera(&mut cam, &s.keys, 500_000);
    assert_eq!(cam.position.c2, U + U / 2);
}

#[test]
fn hidden_key_moves_the_same_under_any_heading() {
    let mut cam1 = FourCamera::default();
    let mut cam2 = FourCamera {
        position: Vec4 { c0: 0, c1: 0, c2: 0, c3: 0 },
        orientation: Orientation { vertical: 0, horizontal: quarter_turn_01() },
        fov_tan: U,
    };
    let mut s = AppState::init();
    s.update(Msg::KeyDown(Key::HiddenIn));
    move_camera(&mut cam1, &s.keys, 1_000_000);
    move_camera(&mut cam2, &s.keys, 1_000_000);
    assert_eq!(cam1.position.c3, U);
    assert_eq!(cam2.position.c3, U);
    assert_eq!(cam2.position.c0, 0);
}

#[test]
fn opposite_keys_cancel() {
    let mut cam = FourCamera::default();
    let mut s = AppState::init();
    s.update(Msg::KeyDown(Key::Up));
    s.update(Msg::KeyDown(Key::Down));
    move_camera(&mut cam, &s.keys, 1_000_000);
    assert_eq!(cam.position, FourCamera::default().position);
}

#[test]
fn accumulation_sums_and_ignores_order() {
    assert_eq!(accumulate(&vec![]), 0);
    assert_eq!(accumulate(&vec![1, 2, 3]), 6);
    assert_eq!(accumulate(&vec![3, 2, 1]), 6);
    assert_eq!(accumulate(&vec![5, -7, 2]), 0);
    let a: Vec<i64> = vec![10, 20, 30];
    let mut b = a.clone();
    b.reverse();
    assert_eq!(accumulate(&a), accumulate(&b));
}

#[test]
fn ground_point_visible_at_hidden_distance_zero() {
    // A camera at hidden position 0 looking straight at a point of the
    // ground five units ahead, slice half-extent 0.1, no occluders.
    let cam = FourCamera::default();
    let m = cam.projection_matrix(0, U);
    let regions: Vec<Region> = vec![];
    let tgt = Vec4 { c0: 0, c1: 0, c2: 5 * U, c3: 0 };
    assert!(fragment_visible(&m, &cam.position, &tgt, U, U, 100_000, &regions));
}

#[test]
fn ground_point_invisible_after_hidden_move_whatever_the_view_direction() {
    let regions: Vec<Region> = vec![];
    let tgt = Vec4 { c0: 0, c1: 0, c2: 5 * U, c3: 0 };
    for heading in [id3(), quarter_turn_01()] {
        for fov in [U, 3 * U] {
            let cam = FourCamera {
                position: Vec4 { c0: 0, c1: 0, c2: 0, c3: 5 * U },
                orientation: Orientation { vertical: 0, horizontal: heading },
                fov_tan: fov,
            };
            let m = cam.projection_matrix(0, U);
            assert!(!fragment_visible(&m, &cam.position, &tgt, U, U, 100_000, &regions));
        }
    }
}

#[test]
fn tilted_slice_slab_follows_the_tilted_hidden_distance() {
    // An exact tilt with sine 0.6 and cosine 0.8: the slab coordinate of a
    // fragment five units ahead becomes 0.8 * 0 - 0.6 * 5 = -3 units.
    let cam = FourCamera::default();
    let m = cam.projection_matrix(600_000, 800_000);
    let regions: Vec<Region> = vec![];
    let tgt = Vec4 { c0: 0, c1: 0, c2: 5 * U, c3: 0 };
    assert!(!fragment_visible(&m, &cam.position, &tgt, U, U, 100_000, &regions));
    assert!(fragment_visible(&m, &cam.position, &tgt, U, U, 4_000_000, &regions));
}

#[test]
fn occluder_between_camera_and_fragment_blocks_it() {
    let cam = FourCamera::default();
    let m = cam.projection_matrix(0, U);
    let tgt = Vec4 { c0: 0, c1: 0, c2: 5 * U, c3: 0 };
    // A slab 1 <= forward <= 2 units across the line of sight.
    let wall = Region {
        rows: vec![
            Row5 { a0: 0, a1: 0, a2: -U, a3: 0, b: U * U },
            Row5 { a0: 0, a1: 0, a2: U, a3: 0, b: -2 * U * U },
        ],
    };
    assert!(!fragment_visible(&m, &cam.position, &tgt, U, U, 100_000, &vec![wall]));
    // The same slab moved behind the fragment no longer blocks it.
    let far_wall = Region {
        rows: vec![
            Row5 { a0: 0, a1: 0, a2: -U, a3: 0, b: 7 * U * U },
            Row5 { a0: 0, a1: 0, a2: U, a3: 0, b: -8 * U * U },
        ],
    };
    assert!(fragment_visible(&m, &cam.position, &tgt, U, U, 100_000, &vec![far_wall]));
}

#[test]
fn fragment_behind_the_camera_contributes_nothing() {
    let cam = FourCamera::default();
    let m = cam.projection_matrix(0, U);
    let regions: Vec<Region> = vec![];
    let behind = Vec4 { c0: 0, c1: 0, c2: -5 * U, c3: 0 };
    assert!(!fragment_visible(&m, &cam.position, &behind, U, U, 100_000, &regions));
}

#[test]
fn plan_frame_moves_the_player_and_reads_the_slider() {
    let mut s = AppState::init();
    s.update(Msg::KeyDown(Key::Forward));
    s.update(Msg::SliderInput { value: 3 });
    let u = plan_frame(&mut s, 1_000_000, 0, U);
    assert_eq!(s.camera.position.c2, U);
    assert_eq!(u.cam_pos, s.camera.position);
    assert_eq!(u.slice_extent, 300_000);
    assert_eq!(u.screen_extent_0, U);
    assert_eq!(u.screen_extent_1, U);
    assert!(!u.use_headset);
    // The hidden row of the planned projection has no field-of-view factor.
    assert_eq!(u.proj.r3.a3, -(U * U * U));
}

#[test]
fn plan_frame_selects_the_headset_when_presenting() {
    let mut s = AppState::init();
    s.update(Msg::VrDisplaysListed { count: 1 });
    s.update(Msg::Click);
    s.update(Msg::VrPresenting);
    let u = plan_frame(&mut s, 16_000, 0, U);
    assert!(u.use_headset);
}
