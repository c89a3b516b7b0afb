//! The per-frame logic of the two-pass render pipeline.
//!
//! - The per-fragment visibility rule of the accumulate pass: a fragment
//!   contributes nothing when it falls outside the view frustum, behind the
//!   camera, outside the hidden-axis slice slab, or behind an occluder;
//!   otherwise it contributes its attenuated texture sample. Contributions
//!   are summed under additive blending, so draw order never matters.
//! - The head-mounted-display status cell, an explicit state machine
//!   (Searching, then NotSupported, NotFound or Known, then
//!   RequestedPresentation, then Presenting) that makes illegal transitions
//!   unrepresentable.
//! - The per-frame update function from state and event to next state, and
//!   the per-frame planner that moves the player and assembles the uniforms
//!   handed to the accumulate pass.

use vstd::prelude::*;

use crate::camera::{
    camera_wf, is_hidden_row, is_vis_row, proj_wf, world_motion, FourCamera, Orientation, Proj,
};
use crate::linalg::{
    in_range, lemma_abs_mul, mat3_in_range, row_apply, row_in_range, trunc_div_unit,
    vec4_in_range, Mat3, Row5, Vec4, COORD_BOUND, EXTENT_BOUND, ROT_BOUND, UNIT,
};
use crate::region::{occludes, regions_wf, rowsets_of, scene_occludes, Region};

verus! {

/// Bound on the value of a projection row at a world point.
pub const PROJ_VAL_BOUND: i128 = 10_000_000_000_000_000_000_000_000_000_000;

/// The head-mounted-display session status: a single-writer cell written by
/// the discovery and presentation callbacks and read by every frame.
#[derive(Clone, Copy, PartialEq, Eq, Structural, Debug)]
pub enum VrStatus {
    Searching,
    NotSupported,
    NotFound,
    Known,
    RequestedPresentation,
    Presenting,
}

/// The legal transitions of the status cell.
pub open spec fn vr_step_ok(a: VrStatus, b: VrStatus) -> bool {
    ||| a == b
    ||| (a == VrStatus::Searching && (b == VrStatus::NotSupported || b == VrStatus::NotFound
        || b == VrStatus::Known))
    ||| (a == VrStatus::Known && b == VrStatus::RequestedPresentation)
    ||| (a == VrStatus::RequestedPresentation && b == VrStatus::Presenting)
}

/// One player-movement key per camera-local axis direction.
#[derive(Clone, Copy, PartialEq, Eq, Structural, Debug)]
pub enum Key {
    Up,
    Down,
    StrafeRight,
    StrafeLeft,
    Forward,
    Back,
    HiddenIn,
    HiddenOut,
}

/// Which movement keys are currently held.
#[derive(Clone, Copy, PartialEq, Eq, Structural, Debug)]
pub struct KeyState {
    pub up: bool,
    pub down: bool,
    pub strafe_right: bool,
    pub strafe_left: bool,
    pub forward: bool,
    pub back: bool,
    pub hidden_in: bool,
    pub hidden_out: bool,
}

impl Default for KeyState {
    /// No key held.
    fn default() -> (k: Self)
        ensures
            k == (KeyState {
                up: false,
                down: false,
                strafe_right: false,
                strafe_left: false,
                forward: false,
                back: false,
                hidden_in: false,
                hidden_out: false,
            }),
    {
        KeyState {
            up: false,
            down: false,
            strafe_right: false,
            strafe_left: false,
            forward: false,
            back: false,
            hidden_in: false,
            hidden_out: false,
        }
    }
}

/// The key state after one key goes down or up.
pub open spec fn spec_set_key(k: KeyState, key: Key, v: bool) -> KeyState {
    match key {
        Key::Up => KeyState { up: v, ..k },
        Key::Down => KeyState { down: v, ..k },
        Key::StrafeRight => KeyState { strafe_right: v, ..k },
        Key::StrafeLeft => KeyState { strafe_left: v, ..k },
        Key::Forward => KeyState { forward: v, ..k },
        Key::Back => KeyState { back: v, ..k },
        Key::HiddenIn => KeyState { hidden_in: v, ..k },
        Key::HiddenOut => KeyState { hidden_out: v, ..k },
    }
}

/// One event of the per-frame loop, already stripped of host types. Pointer
/// input arrives as the freshly accumulated heading block plus a tilt delta:
/// the host does the transcendental quaternion work and the input filtering
/// (events only arrive while the pointer is captured).
pub enum Msg {
    /// Primary button: requests presentation when a display is known.
    Click,
    /// Pointer look: replace the heading, tilt by the given microdegrees.
    Look { heading: Mat3, tilt_delta: i64 },
    KeyDown(Key),
    KeyUp(Key),
    /// The slice-thickness slider reports a value (clamped into [1, 10]).
    SliderInput { value: i64 },
    /// Display discovery finished and found this many displays.
    VrDisplaysListed { count: u32 },
    /// Display discovery is impossible: the interface is absent.
    VrUnsupported,
    /// The presentation request completed.
    VrPresenting,
}

pub open spec fn msg_wf(m: Msg) -> bool {
    match m {
        Msg::Look { heading, tilt_delta } => mat3_in_range(heading, ROT_BOUND as int),
        _ => true,
    }
}

/// The whole per-frame mutable state of the application core.
#[derive(Clone, Copy, PartialEq, Eq, Structural, Debug)]
pub struct AppState {
    pub camera: FourCamera,
    pub keys: KeyState,
    pub vr: VrStatus,
    /// Slice-thickness slider value, within [1, 10].
    pub slice_slider: i64,
}

pub open spec fn state_wf(s: AppState) -> bool {
    &&& camera_wf(s.camera)
    &&& 1 <= s.slice_slider <= 10
}

/// The slider value after the range input clamps it into [1, 10].
pub open spec fn clamp_slider(v: int) -> int {
    if v < 1 {
        1
    } else if v > 10 {
        10
    } else {
        v
    }
}

/// The state one event leaves behind.
pub open spec fn spec_update(s: AppState, m: Msg) -> AppState {
    match m {
        Msg::Click => {
            if s.vr == VrStatus::Known {
                AppState { vr: VrStatus::RequestedPresentation, ..s }
            } else {
                s
            }
        },
        Msg::Look { heading, tilt_delta } => AppState {
            camera: FourCamera {
                orientation: Orientation {
                    vertical: crate::camera::clamp_tilt(
                        s.camera.orientation.vertical + tilt_delta,
                    ) as i64,
                    horizontal: heading,
                },
                ..s.camera
            },
            ..s
        },
        Msg::KeyDown(k) => AppState { keys: spec_set_key(s.keys, k, true), ..s },
        Msg::KeyUp(k) => AppState { keys: spec_set_key(s.keys, k, false), ..s },
        Msg::SliderInput { value } => AppState {
            slice_slider: clamp_slider(value as int) as i64,
            ..s
        },
        Msg::VrDisplaysListed { count } => {
            if s.vr == VrStatus::Searching {
                if count == 0 {
                    AppState { vr: VrStatus::NotFound, ..s }
                } else {
                    AppState { vr: VrStatus::Known, ..s }
                }
            } else {
                s
            }
        },
        Msg::VrUnsupported => {
            if s.vr == VrStatus::Searching {
                AppState { vr: VrStatus::NotSupported, ..s }
            } else {
                s
            }
        },
        Msg::VrPresenting => {
            if s.vr == VrStatus::RequestedPresentation {
                AppState { vr: VrStatus::Presenting, ..s }
            } else {
                s
            }
        },
    }
}

impl AppState {
    /// A fresh application state: default camera, no key held, display
    /// discovery under way, slider at full thickness.
    pub fn init() -> (s: AppState)
        ensures
            state_wf(s),
            s.vr == VrStatus::Searching,
            s.keys == (KeyState {
                up: false,
                down: false,
                strafe_right: false,
                strafe_left: false,
                forward: false,
                back: false,
                hidden_in: false,
                hidden_out: false,
            }),
            s.slice_slider == 10,
    {
        AppState {
            camera: FourCamera::default(),
            keys: KeyState::default(),
            vr: VrStatus::Searching,
            slice_slider: 10,
        }
    }

    /// Applies one event to the state, exactly as [`spec_update`] states.
    pub fn update(&mut self, msg: Msg)
        requires
            state_wf(*old(self)),
            msg_wf(msg),
        ensures
            state_wf(*final(self)),
            *final(self) == spec_update(*old(self), msg),
    {
        match msg {
            Msg::Click => {
                if self.vr == VrStatus::Known {
                    self.vr = VrStatus::RequestedPresentation;
                }
            },
            Msg::Look { heading, tilt_delta } => {
                self.camera.orientation.tilt(tilt_delta);
                self.camera.orientation.set_heading(heading);
            },
            Msg::KeyDown(k) => {
                set_key(&mut self.keys, k, true);
            },
            Msg::KeyUp(k) => {
                set_key(&mut self.keys, k, false);
            },
            Msg::SliderInput { value } => {
                self.slice_slider = if value < 1 {
                    1
                } else if value > 10 {
                    10
                } else {
                    value
                };
            },
            Msg::VrDisplaysListed { count } => {
                if self.vr == VrStatus::Searching {
                    if count == 0 {
                        self.vr = VrStatus::NotFound;
                    } else {
                        self.vr = VrStatus::Known;
                    }
                }
            },
            Msg::VrUnsupported => {
                if self.vr == VrStatus::Searching {
                    self.vr = VrStatus::NotSupported;
                }
            },
            Msg::VrPresenting => {
                if self.vr == VrStatus::RequestedPresentation {
                    self.vr = VrStatus::Presenting;
                }
            },
        }
    }
}

/// Flips one key flag.
fn set_key(keys: &mut KeyState, key: Key, v: bool)
    ensures
        *final(keys) == spec_set_key(*old(keys), key, v),
{
    match key {
        Key::Up => keys.up = v,
        Key::Down => keys.down = v,
        Key::StrafeRight => keys.strafe_right = v,
        Key::StrafeLeft => keys.strafe_left = v,
        Key::Forward => keys.forward = v,
        Key::Back => keys.back = v,
        Key::HiddenIn => keys.hidden_in = v,
        Key::HiddenOut => keys.hidden_out = v,
    }
}

/// Law: no event makes the status cell take an illegal step — presenting is
/// reachable only through Known and RequestedPresentation.
pub proof fn lemma_update_vr_legal(s: AppState, m: Msg)
    ensures
        vr_step_ok(s.vr, spec_update(s, m).vr),
{
}

/// The signed `UNIT`-scaled intent along one axis from its two keys.
pub open spec fn key_axis(pos: bool, neg: bool) -> int {
    (if pos {
        UNIT as int
    } else {
        0
    }) - (if neg {
        UNIT as int
    } else {
        0
    })
}

/// The camera-local movement intent of the held keys.
pub open spec fn spec_intent(k: KeyState) -> (int, int, int, int) {
    (
        key_axis(k.up, k.down),
        key_axis(k.strafe_right, k.strafe_left),
        key_axis(k.forward, k.back),
        key_axis(k.hidden_in, k.hidden_out),
    )
}

/// The world-space motion (scaled by `UNIT^2`) of the held keys under the
/// horizontal rotation: the hidden component never touches the rotation.
pub open spec fn spec_motion(h: Mat3, k: KeyState) -> (int, int, int, int) {
    let it = spec_intent(k);
    (
        h.m00 * it.0 + h.m01 * it.1 + h.m02 * it.2,
        h.m10 * it.0 + h.m11 * it.1 + h.m12 * it.2,
        h.m20 * it.0 + h.m21 * it.1 + h.m22 * it.2,
        UNIT * it.3,
    )
}

/// A coordinate clamped to the world bounds.
pub open spec fn clamp_coord(v: int) -> int {
    if v > COORD_BOUND {
        COORD_BOUND as int
    } else if v < -COORD_BOUND {
        -(COORD_BOUND as int)
    } else {
        v
    }
}

/// One coordinate after a frame of movement: the motion times the elapsed
/// microseconds, brought back to coordinate scale, clamped to the world.
pub open spec fn spec_move(c: int, m: int, dt_us: int) -> int {
    clamp_coord(c + trunc_div_unit(trunc_div_unit(m * dt_us)))
}

/// Builds the camera-local movement-intent vector of the held keys.
pub fn motion_intent(keys: &KeyState) -> (it: Vec4)
    ensures
        it.c0 as int == spec_intent(*keys).0,
        it.c1 as int == spec_intent(*keys).1,
        it.c2 as int == spec_intent(*keys).2,
        it.c3 as int == spec_intent(*keys).3,
        vec4_in_range(it, UNIT as int),
{
    Vec4 {
        c0: (if keys.up {
            UNIT
        } else {
            0
        }) - (if keys.down {
            UNIT
        } else {
            0
        }),
        c1: (if keys.strafe_right {
            UNIT
        } else {
            0
        }) - (if keys.strafe_left {
            UNIT
        } else {
            0
        }),
        c2: (if keys.forward {
            UNIT
        } else {
            0
        }) - (if keys.back {
            UNIT
        } else {
            0
        }),
        c3: (if keys.hidden_in {
            UNIT
        } else {
            0
        }) - (if keys.hidden_out {
            UNIT
        } else {
            0
        }),
    }
}

/// Clamps a moved coordinate back into the world bounds.
fn clamp_coord_exec(v: i128) -> (r: i128)
    requires
        in_range(v as int, 2 * COORD_BOUND as int),
    ensures
        r as int == clamp_coord(v as int),
        in_range(r as int, COORD_BOUND as int),
{
    if v > COORD_BOUND {
        COORD_BOUND
    } else if v < -COORD_BOUND {
        -COORD_BOUND
    } else {
        v
    }
}

/// Moves the player: adds the held keys' world-space motion, scaled by the
/// elapsed time, to the camera position, clamping to the world bounds.
pub fn move_camera(cam: &mut FourCamera, keys: &KeyState, dt_us: i64)
    requires
        camera_wf(*old(cam)),
        0 <= dt_us <= 1_000_000,
    ensures
        camera_wf(*final(cam)),
        final(cam).orientation == old(cam).orientation,
        final(cam).fov_tan == old(cam).fov_tan,
        final(cam).position.c0 as int == spec_move(
            old(cam).position.c0 as int,
            spec_motion(old(cam).orientation.horizontal, *keys).0,
            dt_us as int,
        ),
        final(cam).position.c1 as int == spec_move(
            old(cam).position.c1 as int,
            spec_motion(old(cam).orientation.horizontal, *keys).1,
            dt_us as int,
        ),
        final(cam).position.c2 as int == spec_move(
            old(cam).position.c2 as int,
            spec_motion(old(cam).orientation.horizontal, *keys).2,
            dt_us as int,
        ),
        final(cam).position.c3 as int == spec_move(
            old(cam).position.c3 as int,
            spec_motion(old(cam).orientation.horizontal, *keys).3,
            dt_us as int,
        ),
{
    let it = motion_intent(keys);
    let m = world_motion(&cam.orientation, &it);
    proof {
        let h = cam.orientation.horizontal;
        lemma_abs_mul(h.m00 as int, it.c0 as int, ROT_BOUND as int, UNIT as int);
        lemma_abs_mul(h.m01 as int, it.c1 as int, ROT_BOUND as int, UNIT as int);
        lemma_abs_mul(h.m02 as int, it.c2 as int, ROT_BOUND as int, UNIT as int);
        lemma_abs_mul(h.m10 as int, it.c0 as int, ROT_BOUND as int, UNIT as int);
        lemma_abs_mul(h.m11 as int, it.c1 as int, ROT_BOUND as int, UNIT as int);
        lemma_abs_mul(h.m12 as int, it.c2 as int, ROT_BOUND as int, UNIT as int);
        lemma_abs_mul(h.m20 as int, it.c0 as int, ROT_BOUND as int, UNIT as int);
        lemma_abs_mul(h.m21 as int, it.c1 as int, ROT_BOUND as int, UNIT as int);
        lemma_abs_mul(h.m22 as int, it.c2 as int, ROT_BOUND as int, UNIT as int);
        lemma_abs_mul(m.c0 as int, dt_us as int, 6_000_000_000_000, 1_000_000);
        lemma_abs_mul(m.c1 as int, dt_us as int, 6_000_000_000_000, 1_000_000);
        lemma_abs_mul(m.c2 as int, dt_us as int, 6_000_000_000_000, 1_000_000);
        lemma_abs_mul(m.c3 as int, dt_us as int, 6_000_000_000_000, 1_000_000);
    }
    let d0 = crate::linalg::div_unit(crate::linalg::div_unit(m.c0 * (dt_us as i128)));
    let d1 = crate::linalg::div_unit(crate::linalg::div_unit(m.c1 * (dt_us as i128)));
    let d2 = crate::linalg::div_unit(crate::linalg::div_unit(m.c2 * (dt_us as i128)));
    let d3 = crate::linalg::div_unit(crate::linalg::div_unit(m.c3 * (dt_us as i128)));
    cam.position = Vec4 {
        c0: clamp_coord_exec(cam.position.c0 + d0),
        c1: clamp_coord_exec(cam.position.c1 + d1),
        c2: clamp_coord_exec(cam.position.c2 + d2),
        c3: clamp_coord_exec(cam.position.c3 + d3),
    };
}

/// Whether a fragment contributes in the accumulate pass, stated over the
/// camera-space values `r0..r3` of the fragment (the projection rows applied
/// to its world position), the screen half-extents `e0`, `e1`, the slice
/// half-extent `ehid` and the occlusion answer:
/// on screen (perspective test against the forward depth `r2`), strictly in
/// front of the camera, inside the hidden-axis slab, and unblocked.
pub open spec fn spec_fragment_visible(
    r0: int,
    r1: int,
    r2: int,
    r3: int,
    e0: int,
    e1: int,
    ehid: int,
    occluded: bool,
) -> bool {
    &&& r2 > 0
    &&& -(e0 * r2) <= UNIT * r0 <= e0 * r2
    &&& -(e1 * r2) <= UNIT * r1 <= e1 * r2
    &&& in_range(r3, ehid * (UNIT as int * UNIT as int * UNIT as int))
    &&& !occluded
}

/// Evaluates a projection row at a world point (wider bounds than a
/// half-space row needs).
fn proj_eval(r: &Row5, p: &Vec4) -> (v: i128)
    requires
        row_in_range(
            *r,
            crate::camera::PROJ_ROW_BOUND as int,
            crate::camera::PROJ_OFF_BOUND as int,
        ),
        vec4_in_range(*p, COORD_BOUND as int),
    ensures
        v as int == row_apply(*r, *p),
        in_range(v as int, PROJ_VAL_BOUND as int),
{
    proof {
        lemma_abs_mul(
            r.a0 as int,
            p.c0 as int,
            crate::camera::PROJ_ROW_BOUND as int,
            COORD_BOUND as int,
        );
        lemma_abs_mul(
            r.a1 as int,
            p.c1 as int,
            crate::camera::PROJ_ROW_BOUND as int,
            COORD_BOUND as int,
        );
        lemma_abs_mul(
            r.a2 as int,
            p.c2 as int,
            crate::camera::PROJ_ROW_BOUND as int,
            COORD_BOUND as int,
        );
        lemma_abs_mul(
            r.a3 as int,
            p.c3 as int,
            crate::camera::PROJ_ROW_BOUND as int,
            COORD_BOUND as int,
        );
    }
    r.a0 * p.c0 + r.a1 * p.c1 + r.a2 * p.c2 + r.a3 * p.c3 + r.b
}

/// Decides whether the fragment at world position `tgt` contributes in the
/// accumulate pass, exactly as [`spec_fragment_visible`] states it over the
/// projected values and the analytic occlusion test.
pub fn fragment_visible(
    m: &Proj,
    cam_pos: &Vec4,
    tgt: &Vec4,
    e0: i128,
    e1: i128,
    ehid: i128,
    regions: &Vec<Region>,
) -> (vis: bool)
    requires
        proj_wf(*m),
        vec4_in_range(*cam_pos, COORD_BOUND as int),
        vec4_in_range(*tgt, COORD_BOUND as int),
        0 < e0 <= EXTENT_BOUND,
        0 < e1 <= EXTENT_BOUND,
        0 < ehid <= EXTENT_BOUND,
        regions_wf(regions@),
    ensures
        vis == spec_fragment_visible(
            row_apply(m.r0, *tgt),
            row_apply(m.r1, *tgt),
            row_apply(m.r2, *tgt),
            row_apply(m.r3, *tgt),
            e0 as int,
            e1 as int,
            ehid as int,
            scene_occludes(rowsets_of(regions@), *cam_pos, *tgt),
        ),
{
    let r0 = proj_eval(&m.r0, tgt);
    let r1 = proj_eval(&m.r1, tgt);
    let r2 = proj_eval(&m.r2, tgt);
    let r3 = proj_eval(&m.r3, tgt);
    if r2 <= 0 {
        return false;
    }
    proof {
        lemma_abs_mul(e0 as int, r2 as int, EXTENT_BOUND as int, PROJ_VAL_BOUND as int);
        lemma_abs_mul(e1 as int, r2 as int, EXTENT_BOUND as int, PROJ_VAL_BOUND as int);
    }
    let screen0 = e0 * r2;
    let screen1 = e1 * r2;
    if UNIT * r0 > screen0 || UNIT * r0 < -screen0 {
        return false;
    }
    if UNIT * r1 > screen1 || UNIT * r1 < -screen1 {
        return false;
    }
    proof {
        lemma_abs_mul(
            ehid as int,
            UNIT as int * UNIT as int * UNIT as int,
            EXTENT_BOUND as int,
            1_000_000_000_000_000_000,
        );
    }
    let slab = ehid * (UNIT * UNIT * UNIT);
    if r3 > slab || r3 < -slab {
        return false;
    }
    !occludes(regions, cam_pos, tgt)
}

/// Law: at zero vertical tilt the slice-slab test of the accumulate pass is
/// decided by the hidden-axis distance between fragment and camera alone —
/// and by the shape of the hidden row it involves neither the horizontal
/// rotation nor the field of view. A fragment at hidden distance beyond the
/// slice half-extent is outside the slab whatever the view direction; one
/// within it is inside.
pub proof fn lemma_slice_slab_is_hidden_distance(r: Row5, p: Vec4, x: Vec4, ehid: int)
    requires
        is_hidden_row(r, 0, UNIT as int, p),
    ensures
        in_range(row_apply(r, x), ehid * (UNIT as int * UNIT as int * UNIT as int)) == in_range(
            x.c3 - p.c3,
            ehid,
        ),
{
    crate::camera::lemma_hidden_row_value(r, 0, UNIT as int, p, x);
    let d = x.c3 - p.c3;
    assert(row_apply(r, x) == -(1_000_000_000_000_000_000 * d)) by (nonlinear_arith)
        requires
            UNIT as int == 1_000_000,
            row_apply(r, x) == -(UNIT * UNIT * (UNIT * (x.c3 - p.c3) - 0 * (x.c2 - p.c2))),
            d == x.c3 - p.c3,
    ;
    assert(UNIT as int * UNIT as int * UNIT as int == 1_000_000_000_000_000_000);
}

/// Law: with zero vertical tilt, a fragment whose hidden-axis distance from
/// the camera exceeds the slice half-extent contributes nothing — whatever
/// the horizontal view direction, the field of view, the screen extents or
/// the occluders, since the hidden row involves none of them.
pub proof fn lemma_out_of_slice_fragment_invisible(
    r: Row5,
    p: Vec4,
    x: Vec4,
    r0: int,
    r1: int,
    r2: int,
    e0: int,
    e1: int,
    ehid: int,
    occluded: bool,
)
    requires
        is_hidden_row(r, 0, UNIT as int, p),
        !in_range(x.c3 - p.c3, ehid),
    ensures
        !spec_fragment_visible(r0, r1, r2, row_apply(r, x), e0, e1, ehid, occluded),
{
    lemma_slice_slab_is_hidden_distance(r, p, x, ehid);
}

/// The sum of fragment contributions under additive blending.
pub open spec fn spec_sum(cs: Seq<i64>) -> int
    decreases cs.len(),
{
    if cs.len() == 0 {
        0
    } else {
        cs[0] + spec_sum(cs.skip(1))
    }
}

/// Sums the contributions that reach one texel of the accumulation target.
pub fn accumulate(contributions: &Vec<i64>) -> (total: i128)
    requires
        contributions@.len() <= 1_000_000,
    ensures
        total as int == spec_sum(contributions@),
{
    let mut total: i128 = 0;
    let n: usize = contributions.len();
    let mut i: usize = 0;
    proof {
        assert(contributions@.skip(0) =~= contributions@);
    }
    while i < n
        invariant
            0 <= i <= n,
            n == contributions@.len(),
            n <= 1_000_000,
            in_range(total as int, i * 0x8000_0000_0000_0000),
            spec_sum(contributions@) == total + spec_sum(contributions@.skip(i as int)),
        decreases n - i,
    {
        proof {
            assert(contributions@.skip(i as int)[0] == contributions@[i as int]);
            assert(contributions@.skip(i as int).skip(1) =~= contributions@.skip(i as int + 1));
        }
        total = total + contributions[i] as i128;
        i = i + 1;
    }
    proof {
        assert(contributions@.skip(n as int) =~= Seq::<i64>::empty());
    }
    total
}

/// Law (draw order does not matter): accumulation distributes over
/// concatenation, so submitting two batches in either order yields the same
/// sum.
pub proof fn lemma_sum_concat(a: Seq<i64>, b: Seq<i64>)
    ensures
        spec_sum(a + b) == spec_sum(a) + spec_sum(b),
    decreases a.len(),
{
    if a.len() == 0 {
        assert(a + b =~= b);
    } else {
        assert((a + b).skip(1) =~= a.skip(1) + b);
        lemma_sum_concat(a.skip(1), b);
    }
}

/// Everything the accumulate pass needs for one frame, per eye.
pub struct FrameUniforms {
    /// The four-dimensional camera's projection rows.
    pub proj: Proj,
    /// The camera position, for the occlusion test's segment origin.
    pub cam_pos: Vec4,
    /// Screen half-extents of the two lateral axes (`UNIT`-scaled).
    pub screen_extent_0: i128,
    pub screen_extent_1: i128,
    /// Hidden-axis slice half-extent (`UNIT`-scaled).
    pub slice_extent: i128,
    /// Whether the frame is presented through the head-mounted display
    /// (two eye matrices from the device) or to the flat surface.
    pub use_headset: bool,
}

/// Plans one frame: moves the player by the held keys and the elapsed time,
/// then assembles the uniforms of the accumulate pass. The host supplies the
/// `UNIT`-scaled sine and cosine of the camera's vertical tilt. The slice
/// half-extent is one tenth of the slider value, in `UNIT` scale.
pub fn plan_frame(state: &mut AppState, dt_us: i64, vsin: i128, vcos: i128) -> (u: FrameUniforms)
    requires
        state_wf(*old(state)),
        0 <= dt_us <= 1_000_000,
        in_range(vsin as int, ROT_BOUND as int),
        in_range(vcos as int, ROT_BOUND as int),
    ensures
        state_wf(*final(state)),
        final(state).keys == old(state).keys,
        final(state).vr == old(state).vr,
        final(state).slice_slider == old(state).slice_slider,
        final(state).camera.orientation == old(state).camera.orientation,
        final(state).camera.fov_tan == old(state).camera.fov_tan,
        final(state).camera.position.c0 as int == spec_move(
            old(state).camera.position.c0 as int,
            spec_motion(old(state).camera.orientation.horizontal, old(state).keys).0,
            dt_us as int,
        ),
        final(state).camera.position.c1 as int == spec_move(
            old(state).camera.position.c1 as int,
            spec_motion(old(state).camera.orientation.horizontal, old(state).keys).1,
            dt_us as int,
        ),
        final(state).camera.position.c2 as int == spec_move(
            old(state).camera.position.c2 as int,
            spec_motion(old(state).camera.orientation.horizontal, old(state).keys).2,
            dt_us as int,
        ),
        final(state).camera.position.c3 as int == spec_move(
            old(state).camera.position.c3 as int,
            spec_motion(old(state).camera.orientation.horizontal, old(state).keys).3,
            dt_us as int,
        ),
        is_vis_row(
            u.proj.r0,
            final(state).camera.fov_tan as int,
            final(state).camera.orientation.horizontal.m00 as int,
            final(state).camera.orientation.horizontal.m10 as int,
            final(state).camera.orientation.horizontal.m20 as int,
            vsin as int,
            vcos as int,
            final(state).camera.position,
        ),
        is_vis_row(
            u.proj.r1,
            final(state).camera.fov_tan as int,
            final(state).camera.orientation.horizontal.m01 as int,
            final(state).camera.orientation.horizontal.m11 as int,
            final(state).camera.orientation.horizontal.m21 as int,
            vsin as int,
            vcos as int,
            final(state).camera.position,
        ),
        is_vis_row(
            u.proj.r2,
            final(state).camera.fov_tan as int,
            final(state).camera.orientation.horizontal.m02 as int,
            final(state).camera.orientation.horizontal.m12 as int,
            final(state).camera.orientation.horizontal.m22 as int,
            vsin as int,
            vcos as int,
            final(state).camera.position,
        ),
        is_hidden_row(u.proj.r3, vsin as int, vcos as int, final(state).camera.position),
        proj_wf(u.proj),
        u.cam_pos == final(state).camera.position,
        u.screen_extent_0 == UNIT,
        u.screen_extent_1 == UNIT,
        u.slice_extent as int == old(state).slice_slider * 100_000,
        0 < u.slice_extent <= EXTENT_BOUND,
        u.use_headset == (old(state).vr == VrStatus::Presenting),
{
    move_camera(&mut state.camera, &state.keys, dt_us);
    let proj = state.camera.projection_matrix(vsin, vcos);
    let use_headset = state.vr == VrStatus::Presenting;
    FrameUniforms {
        proj,
        cam_pos: state.camera.position,
        screen_extent_0: UNIT,
        screen_extent_1: UNIT,
        slice_extent: (state.slice_slider as i128) * 100_000,
        use_headset,
    }
}

} // verus!
