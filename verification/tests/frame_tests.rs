use gloom::animation::{
    animate_actor, door_update, DoorState, Heading, ACTOR_COUNT, ACTOR_SPACING,
    DOOR_OFFSET_X, DOOR_OFFSET_Z,
};
use gloom::camera::{camera_matrix, CameraState, CAMERA_BACK, KEY_RATE};
use gloom::frame::{build_scene, frame_input_phase, FrameState};
use gloom::input::{MouseDelta, PressedKeys, WindowSize, KEY_A, KEY_C, KEY_D, KEY_O};
use gloom::math::{Mat4, Rot, Vec3, SCALE};
use gloom::render::render;
use gloom::scene::SceneGraph;

#[test]
fn held_key_accumulates_rate_times_duration_over_any_ticks() {
    // One long tick and many short ticks covering the same duration give
    // exactly the same accumulator value.
    let total: i64 = 1000;
    let mut keys = PressedKeys::new();
    keys.key_down(KEY_A);
    let mut one = CameraState::new();
    one.update(&keys, total);
    let mut many = CameraState::new();
    for _ in 0..10 {
        many.update(&keys, total / 10);
    }
    assert_eq!(one.motion_x, KEY_RATE * total);
    assert_eq!(many.motion_x, one.motion_x);
    assert_eq!(many.motion_y, 0);
}

#[test]
fn uneven_tick_partitions_accumulate_equally() {
    let mut keys = PressedKeys::new();
    keys.key_down(KEY_A);
    let mut a = CameraState::new();
    a.update(&keys, 997);
    let mut b = CameraState::new();
    for dt in [500, 300, 150, 47] {
        b.update(&keys, dt);
    }
    assert_eq!(a.motion_x, b.motion_x);
    assert_eq!(a.motion_x, KEY_RATE * 997);
}

#[test]
fn rotors_spin_about_their_own_axes() {
    let mut g = SceneGraph::new();
    let root = g.new_node();
    let a = gloom::animation::build_actor(&mut g, root, 1, 1, 2, 1, 3, 1, 4, 1);
    let heading = Heading {
        x: 3 * SCALE, z: -SCALE, pitch: Rot::new(100, 200), yaw: Rot::new(300, 400),
        roll: Rot::new(500, 600),
    };
    let spin = Rot::new(0, SCALE);
    animate_actor(&mut g, a.root, 2, heading, spin, DoorState::Closed).unwrap();
    // The root carries the trajectory sample, offset by its slot.
    assert_eq!(g.node(a.root).position, Vec3::new(2 * ACTOR_SPACING + 3 * SCALE, 0, -SCALE));
    assert_eq!(g.node(a.root).rotation.x, Rot::new(100, 200));
    assert_eq!(g.node(a.root).rotation.y, Rot::new(300, 400));
    assert_eq!(g.node(a.root).rotation.z, Rot::new(500, 600));
    // The main rotor spins about Y, the tail rotor about X.
    assert_eq!(g.node(a.main_rotor).rotation.y, spin);
    assert_eq!(g.node(a.main_rotor).rotation.x, Rot::zero());
    assert_eq!(g.node(a.tail_rotor).rotation.x, spin);
    assert_eq!(g.node(a.tail_rotor).rotation.y, Rot::zero());
}

#[test]
fn opposing_keys_cancel() {
    let mut keys = PressedKeys::new();
    keys.key_down(KEY_A);
    keys.key_down(KEY_D);
    let mut cam = CameraState::new();
    cam.update(&keys, 500);
    assert_eq!(cam.motion_x, 0);
}

#[test]
fn door_state_is_discrete() {
    let mut keys = PressedKeys::new();
    let d0 = DoorState::Closed;
    keys.key_down(KEY_O);
    let d1 = door_update(d0, &keys);
    assert_eq!(d1, DoorState::Open);
    keys.key_up(KEY_O);
    // No key held: the state persists.
    assert_eq!(door_update(d1, &keys), DoorState::Open);
    keys.key_down(KEY_C);
    assert_eq!(door_update(d1, &keys), DoorState::Closed);
}

#[test]
fn door_offsets_are_exact() {
    let mut g = SceneGraph::new();
    let root = g.new_node();
    let a = gloom::animation::build_actor(&mut g, root, 1, 1, 2, 1, 3, 1, 4, 1);
    let heading = Heading {
        x: 0, z: 0, pitch: Rot::zero(), yaw: Rot::zero(), roll: Rot::zero(),
    };
    animate_actor(&mut g, a.root, 0, heading, Rot::zero(), DoorState::Open).unwrap();
    assert_eq!(g.node(a.door).position, Vec3::new(DOOR_OFFSET_X, 0, DOOR_OFFSET_Z));
    let heading2 = Heading {
        x: 0, z: 0, pitch: Rot::zero(), yaw: Rot::zero(), roll: Rot::zero(),
    };
    animate_actor(&mut g, a.root, 0, heading2, Rot::zero(), DoorState::Closed).unwrap();
    assert_eq!(g.node(a.door).position, Vec3::new(0, 0, 0));
    assert_eq!(g.node(a.body).children, vec![a.door]);
}

#[test]
fn frame_input_phase_runs_all_four_steps() {
    let mut state = FrameState::new();
    let mut window = WindowSize::new(800, 600);
    window.record_resize(320, 200);
    let mut keys = PressedKeys::new();
    keys.key_down(KEY_A);
    keys.key_down(KEY_O);
    let mut mouse = MouseDelta::new();
    mouse.accumulate(9, -9);
    let prep = frame_input_phase(&mut state, &mut window, &keys, &mut mouse, 16);
    assert_eq!(prep.resize, Some((320, 200)));
    assert!(!window.dirty);
    assert_eq!(state.camera.motion_x, KEY_RATE * 16);
    assert_eq!(state.door, DoorState::Open);
    assert_eq!((prep.mouse_dx, prep.mouse_dy), (9, -9));
    assert_eq!((mouse.dx, mouse.dy), (0, 0));
}

#[test]
fn camera_matrix_with_neutral_inputs_is_the_pullback() {
    let cam = CameraState::new();
    let proj = Mat4::identity();
    let m = camera_matrix(&cam, Rot::zero(), Rot::zero(), &proj).unwrap();
    assert_eq!(m, Mat4::translation(Vec3::new(0, 0, -CAMERA_BACK)));
}

#[test]
fn whole_scene_renders_one_draw_per_drawable() {
    let (mut g, terrain, actors) = build_scene(100, 9, 101, 9, 102, 9, 103, 9, 104, 9);
    assert_eq!(actors.len(), ACTOR_COUNT);
    // Animate every actor into a distinct slot.
    for (n, a) in actors.iter().enumerate() {
        let heading = Heading {
            x: 2 * SCALE, z: 5 * SCALE,
            pitch: Rot::zero(), yaw: Rot::zero(), roll: Rot::zero(),
        };
        animate_actor(&mut g, a.root, n, heading, Rot::new(0, SCALE), DoorState::Closed)
            .unwrap();
    }
    let vp = Mat4::identity();
    let draws = render(&g, terrain, &vp).unwrap();
    // The terrain plus four drawable parts per helicopter.
    assert_eq!(draws.len(), 1 + 4 * ACTOR_COUNT);
    // The first helicopter body sits at the heading, the second one slot over.
    let body_draws: Vec<_> = draws.iter().filter(|d| d.vao_id == 101).collect();
    assert_eq!(body_draws.len(), ACTOR_COUNT);
    assert_eq!(body_draws[0].world.e03, 2 * SCALE);
    assert_eq!(body_draws[1].world.e03, 2 * SCALE + ACTOR_SPACING);
    assert_eq!(body_draws[0].world.e23, 5 * SCALE);
}

#[test]
fn out_of_range_child_fails_loudly() {
    let mut g = SceneGraph::new();
    let lonely = g.new_node();
    let heading = Heading {
        x: 0, z: 0, pitch: Rot::zero(), yaw: Rot::zero(), roll: Rot::zero(),
    };
    let r = animate_actor(&mut g, lonely, 0, heading, Rot::zero(), DoorState::Closed);
    assert!(r.is_err());
}
