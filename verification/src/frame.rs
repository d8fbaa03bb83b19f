//! The render loop's per-iteration decisions, and whole-scene construction.
//!
//! Each iteration the render task: drains a pending resize, accumulates
//! camera state from the snapshot of held keys, steps the door state
//! machine, and takes (and thereby resets) the accumulated mouse delta.
//! Those decisions are pure and are verified here as one step function.
//! The steps that need outside computation in between — trigonometry for
//! the look angles and the trajectory sample, the perspective projection,
//! and the draw submission itself — are driven by the caller around
//! `camera_matrix`, `animate_actor` and `render`.

use vstd::prelude::*;
use crate::camera::{CameraState, camera_step_fits, axis_step};
use crate::input::{
    PressedKeys, MouseDelta, WindowSize,
    KEY_A, KEY_D, KEY_S, KEY_W, KEY_SPACE, KEY_LSHIFT, KEY_LEFT, KEY_RIGHT, KEY_UP, KEY_DOWN,
};
use crate::animation::{DoorState, door_after, door_update, ActorNodes, build_actor, ACTOR_COUNT};
use crate::scene::{SceneGraph, graph_wf};

verus! {

/// State the render loop carries from frame to frame.
pub struct FrameState {
    pub camera: CameraState,
    pub door: DoorState,
}

impl FrameState {
    pub fn new() -> (r: FrameState)
        ensures
            r.camera.motion_x == 0 && r.camera.motion_y == 0 && r.camera.motion_z == 0,
            r.camera.yaw == 0 && r.camera.pitch == 0,
            r.door == DoorState::Closed,
    {
        FrameState { camera: CameraState::new(), door: DoorState::Closed }
    }
}

/// What the input phase hands to the rest of the frame: the resize to
/// apply, if one was pending, and the mouse delta consumed this frame.
pub struct FramePrep {
    pub resize: Option<(u32, u32)>,
    pub mouse_dx: i64,
    pub mouse_dy: i64,
}

/// The input phase of one frame: drain the resize flag, step the camera
/// accumulators and the door state from the held keys, and consume the
/// mouse delta, which always reads back as zero afterwards.
pub fn frame_input_phase(
    state: &mut FrameState,
    window: &mut WindowSize,
    keys: &PressedKeys,
    mouse: &mut MouseDelta,
    dt: i64,
) -> (r: FramePrep)
    requires
        0 <= dt,
        camera_step_fits(old(state).camera, keys.keys@, dt as int),
    ensures
        old(window).dirty ==> r.resize == Some((old(window).width, old(window).height)),
        !old(window).dirty ==> (r.resize is None),
        !final(window).dirty,
        final(window).width == old(window).width,
        final(window).height == old(window).height,
        final(state).camera.motion_x == axis_step(old(state).camera.motion_x as int,
            keys.keys@.contains(KEY_A), keys.keys@.contains(KEY_D), dt as int),
        final(state).camera.motion_y == axis_step(old(state).camera.motion_y as int,
            keys.keys@.contains(KEY_S), keys.keys@.contains(KEY_W), dt as int),
        final(state).camera.motion_z == axis_step(old(state).camera.motion_z as int,
            keys.keys@.contains(KEY_SPACE), keys.keys@.contains(KEY_LSHIFT), dt as int),
        final(state).camera.yaw == axis_step(old(state).camera.yaw as int,
            keys.keys@.contains(KEY_LEFT), keys.keys@.contains(KEY_RIGHT), dt as int),
        final(state).camera.pitch == axis_step(old(state).camera.pitch as int,
            keys.keys@.contains(KEY_UP), keys.keys@.contains(KEY_DOWN), dt as int),
        final(state).door == door_after(old(state).door, keys.keys@),
        r.mouse_dx == old(mouse).dx,
        r.mouse_dy == old(mouse).dy,
        final(mouse).dx == 0,
        final(mouse).dy == 0,
{
    let resize = window.take_resize();
    state.camera.update(keys, dt);
    state.door = door_update(state.door, keys);
    let (mouse_dx, mouse_dy) = mouse.take();
    FramePrep { resize, mouse_dx, mouse_dy }
}

/// Build the whole scene: a terrain root that owns every helicopter, each
/// helicopter a five-node subtree. The terrain is node zero; the actors'
/// parts follow it in order.
pub fn build_scene(
    terrain_vao: u32, terrain_count: u32,
    body_vao: u32, body_count: u32,
    door_vao: u32, door_count: u32,
    main_vao: u32, main_count: u32,
    tail_vao: u32, tail_count: u32,
) -> (r: (SceneGraph, usize, Vec<ActorNodes>))
    ensures
        graph_wf(r.0),
        r.1 == 0,
        r.0.nodes@.len() == 1 + 5 * ACTOR_COUNT,
        r.2@.len() == ACTOR_COUNT,
        r.0.nodes@[0].drawable
            == (Some(crate::scene::Drawable { vao_id: terrain_vao, index_count: terrain_count })),
        forall|k: int| 0 <= k < ACTOR_COUNT ==> {
            let a = #[trigger] r.2@[k];
            &&& a.root < r.0.nodes@.len()
            &&& a.body < r.0.nodes@.len()
            &&& r.0.nodes@[a.root as int].children@ == seq![a.body, a.main_rotor, a.tail_rotor]
            &&& r.0.nodes@[a.body as int].children@ == seq![a.door]
        },
{
    let mut g = SceneGraph::new();
    let terrain = g.new_drawable_node(terrain_vao, terrain_count);
    let mut actors: Vec<ActorNodes> = Vec::new();
    let mut k: usize = 0;
    while k < ACTOR_COUNT
        invariant
            graph_wf(g),
            terrain == 0,
            0 <= k <= ACTOR_COUNT,
            actors@.len() == k,
            g.nodes@.len() == 1 + 5 * k,
            g.nodes@[0].drawable
                == (Some(crate::scene::Drawable {
                    vao_id: terrain_vao,
                    index_count: terrain_count,
                })),
            forall|j: int| 0 <= j < k ==> {
                let a = #[trigger] actors@[j];
                &&& a.root < g.nodes@.len()
                &&& a.body < g.nodes@.len()
                &&& a.root >= 1
                &&& a.body >= 1
                &&& g.nodes@[a.root as int].children@ == seq![a.body, a.main_rotor, a.tail_rotor]
                &&& g.nodes@[a.body as int].children@ == seq![a.door]
            },
        decreases ACTOR_COUNT - k,
    {
        let a = build_actor(
            &mut g, terrain,
            body_vao, body_count,
            door_vao, door_count,
            main_vao, main_count,
            tail_vao, tail_count,
        );
        actors.push(a);
        k += 1;
    }
    (g, terrain, actors)
}

} // verus!
