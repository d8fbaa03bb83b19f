//! Camera state accumulated from held keys.
//!
//! Each frame, every currently held directional key moves one of five
//! accumulators by `KEY_RATE * dt`: sideways and vertical motion, zoom, and
//! the yaw and pitch look angles. The accumulators persist from frame to
//! frame. Because the step is exactly `rate * dt`, holding a key over any
//! number of polling ticks accumulates exactly `rate * total-duration`,
//! independently of the frame rate; that law is proved below.
//!
//! The camera transform composes, rightmost applied first: yaw rotation,
//! then pitch rotation, then the accumulated translation; the result is
//! combined with the perspective projection and a fixed pull-back along Z.

use vstd::prelude::*;
use crate::math::{SCALE, ENTRY_MAX, Mat4, M4, Rot, rot_wf, m4_wf, sm_mul, sm_translation, sm_rot_x, sm_rot_y};
use crate::input::{PressedKeys, KEY_A, KEY_D, KEY_S, KEY_W, KEY_SPACE, KEY_LSHIFT, KEY_LEFT, KEY_RIGHT, KEY_UP, KEY_DOWN};

verus! {

/// Scaled units an accumulator moves per second of key hold.
pub const KEY_RATE: i64 = 20 * SCALE;

/// Fixed distance the camera is pulled back along Z.
pub const CAMERA_BACK: i64 = 2 * SCALE;

/// The five key-driven accumulators, in scaled units. The two look angles
/// are scaled degrees; their trigonometry happens outside this library and
/// comes back as `Rot` values.
pub struct CameraState {
    pub motion_x: i64,
    pub motion_y: i64,
    pub motion_z: i64,
    pub yaw: i64,
    pub pitch: i64,
}

/// One accumulator step: move by `KEY_RATE * dt` up, down, or not at all,
/// depending on which of the two opposing keys are held.
pub open spec fn axis_step(cur: int, plus: bool, minus: bool, dt: int) -> int {
    if plus && !minus {
        cur + KEY_RATE * dt
    } else if minus && !plus {
        cur - KEY_RATE * dt
    } else {
        cur
    }
}

/// All five stepped accumulators stay within the machine range.
pub open spec fn camera_step_fits(c: CameraState, keys: Seq<u32>, dt: int) -> bool {
    &&& i64::MIN <= axis_step(c.motion_x as int, keys.contains(KEY_A), keys.contains(KEY_D), dt)
        <= i64::MAX
    &&& i64::MIN <= axis_step(c.motion_y as int, keys.contains(KEY_S), keys.contains(KEY_W), dt)
        <= i64::MAX
    &&& i64::MIN <= axis_step(c.motion_z as int, keys.contains(KEY_SPACE),
        keys.contains(KEY_LSHIFT), dt) <= i64::MAX
    &&& i64::MIN <= axis_step(c.yaw as int, keys.contains(KEY_LEFT), keys.contains(KEY_RIGHT), dt)
        <= i64::MAX
    &&& i64::MIN <= axis_step(c.pitch as int, keys.contains(KEY_UP), keys.contains(KEY_DOWN), dt)
        <= i64::MAX
}

fn axis_update(cur: i64, plus: bool, minus: bool, dt: i64) -> (r: i64)
    requires
        0 <= dt,
        i64::MIN <= axis_step(cur as int, plus, minus, dt as int) <= i64::MAX,
    ensures
        r == axis_step(cur as int, plus, minus, dt as int),
{
    if plus && !minus {
        let wide: i128 = (cur as i128) + (KEY_RATE as i128) * (dt as i128);
        wide as i64
    } else if minus && !plus {
        let wide: i128 = (cur as i128) - (KEY_RATE as i128) * (dt as i128);
        wide as i64
    } else {
        cur
    }
}

impl CameraState {
    pub fn new() -> (r: CameraState)
        ensures
            r.motion_x == 0 && r.motion_y == 0 && r.motion_z == 0,
            r.yaw == 0 && r.pitch == 0,
    {
        CameraState { motion_x: 0, motion_y: 0, motion_z: 0, yaw: 0, pitch: 0 }
    }

    /// One frame's accumulation from the snapshot of held keys.
    pub fn update(&mut self, keys: &PressedKeys, dt: i64)
        requires
            0 <= dt,
            camera_step_fits(*old(self), keys.keys@, dt as int),
        ensures
            final(self).motion_x == axis_step(old(self).motion_x as int,
                keys.keys@.contains(KEY_A), keys.keys@.contains(KEY_D), dt as int),
            final(self).motion_y == axis_step(old(self).motion_y as int,
                keys.keys@.contains(KEY_S), keys.keys@.contains(KEY_W), dt as int),
            final(self).motion_z == axis_step(old(self).motion_z as int,
                keys.keys@.contains(KEY_SPACE), keys.keys@.contains(KEY_LSHIFT), dt as int),
            final(self).yaw == axis_step(old(self).yaw as int,
                keys.keys@.contains(KEY_LEFT), keys.keys@.contains(KEY_RIGHT), dt as int),
            final(self).pitch == axis_step(old(self).pitch as int,
                keys.keys@.contains(KEY_UP), keys.keys@.contains(KEY_DOWN), dt as int),
    {
        self.motion_x = axis_update(self.motion_x, keys.contains(KEY_A), keys.contains(KEY_D), dt);
        self.motion_y = axis_update(self.motion_y, keys.contains(KEY_S), keys.contains(KEY_W), dt);
        self.motion_z = axis_update(
            self.motion_z, keys.contains(KEY_SPACE), keys.contains(KEY_LSHIFT), dt);
        self.yaw = axis_update(self.yaw, keys.contains(KEY_LEFT), keys.contains(KEY_RIGHT), dt);
        self.pitch = axis_update(self.pitch, keys.contains(KEY_UP), keys.contains(KEY_DOWN), dt);
    }
}

/// Total duration of a run of polling ticks.
pub open spec fn ticks_sum(dts: Seq<int>) -> int
    decreases dts.len(),
{
    if dts.len() == 0 {
        0
    } else {
        dts[0] + ticks_sum(dts.drop_first())
    }
}

/// An accumulator stepped once per tick, with the key held and its opposing
/// key released throughout: each tick takes exactly the step that `update`
/// guarantees.
pub open spec fn held_accum(start: int, dts: Seq<int>) -> int
    decreases dts.len(),
{
    if dts.len() == 0 {
        start
    } else {
        held_accum(axis_step(start, true, false, dts[0]), dts.drop_first())
    }
}

/// Frame-rate independence of key accumulation: holding a key over any run
/// of polling ticks accumulates exactly `KEY_RATE` times the total duration,
/// no matter how the duration is cut into ticks.
pub proof fn lemma_held_accumulation(start: int, dts: Seq<int>)
    ensures
        held_accum(start, dts) == start + KEY_RATE * ticks_sum(dts),
    decreases dts.len(),
{
    if dts.len() == 0 {
        assert(held_accum(start, dts) == start);
    } else {
        lemma_held_accumulation(start + KEY_RATE * dts[0], dts.drop_first());
    }
}

/// The partial products of the camera transform, in the order the
/// executable composition takes them.
pub open spec fn sm_camera_chain(c: CameraState, yaw: Rot, pitch: Rot, proj: M4) -> (M4, M4, M4, M4) {
    let a = sm_mul(sm_rot_x(pitch.c as int, pitch.s as int), sm_rot_y(yaw.c as int, yaw.s as int));
    let b = sm_mul(
        sm_translation(c.motion_x as int, c.motion_y as int, c.motion_z as int), a);
    let d = sm_mul(b, sm_translation(0, 0, -(CAMERA_BACK as int)));
    let e = sm_mul(proj, d);
    (a, b, d, e)
}

/// The combined view-projection transform:
/// `projection * (T(motion) * Rx(pitch) * Ry(yaw)) * T(0, 0, -CAMERA_BACK)`.
pub open spec fn sm_camera(c: CameraState, yaw: Rot, pitch: Rot, proj: M4) -> M4 {
    sm_camera_chain(c, yaw, pitch, proj).3
}

pub open spec fn camera_fits(c: CameraState, yaw: Rot, pitch: Rot, proj: M4) -> bool {
    let (a, b, d, e) = sm_camera_chain(c, yaw, pitch, proj);
    m4_wf(a) && m4_wf(b) && m4_wf(d) && m4_wf(e)
}

/// Build the view-projection matrix from the accumulators, the look angles'
/// rotations, and the projection supplied by the caller.
pub fn camera_matrix(c: &CameraState, yaw: Rot, pitch: Rot, proj: &Mat4) -> (r: Option<Mat4>)
    requires
        rot_wf(yaw),
        rot_wf(pitch),
        m4_wf(proj@),
        -(ENTRY_MAX as int) <= c.motion_x <= ENTRY_MAX as int,
        -(ENTRY_MAX as int) <= c.motion_y <= ENTRY_MAX as int,
        -(ENTRY_MAX as int) <= c.motion_z <= ENTRY_MAX as int,
    ensures
        r is Some <==> camera_fits(*c, yaw, pitch, proj@),
        r matches Some(m) ==> m@ == sm_camera(*c, yaw, pitch, proj@) && m4_wf(m@),
{
    let rx = Mat4::rotation_x(pitch);
    let ry = Mat4::rotation_y(yaw);
    let t_motion = Mat4::translation(
        crate::math::Vec3 { x: c.motion_x, y: c.motion_y, z: c.motion_z });
    let t_back = Mat4::translation(crate::math::Vec3 { x: 0, y: 0, z: -CAMERA_BACK });
    let a = match rx.mul(&ry) {
        Some(m) => m,
        None => { return None; },
    };
    let b = match t_motion.mul(&a) {
        Some(m) => m,
        None => { return None; },
    };
    let d = match b.mul(&t_back) {
        Some(m) => m,
        None => { return None; },
    };
    let e = match proj.mul(&d) {
        Some(m) => m,
        None => { return None; },
    };
    Some(e)
}

} // verus!
