//! Per-frame animation: apply a trajectory sample to each actor's root,
//! spin the two rotors, and place the door.
//!
//! An actor is a helicopter subtree: a grouping root with the body, the
//! main rotor and the tail rotor as children, and the door under the body.
//! The trajectory is an external collaborator: a pure function of elapsed
//! time whose sample arrives here as plain values. The door is a two-state
//! machine driven by the open/close keys: its offset jumps between exactly
//! zero and exactly the open offset, with no intermediate value ever.

use vstd::prelude::*;
use crate::math::{SCALE, ENTRY_MAX, Vec3, Rot, vec3_wf, rot_wf};
use crate::scene::{
    SceneGraph, SceneError, Rot3, graph_wf, graph_has_parent,
};
use crate::input::{PressedKeys, KEY_O, KEY_C};

verus! {

/// Sideways and forward components of the door's open offset.
pub const DOOR_OFFSET_X: i64 = 6554;
pub const DOOR_OFFSET_Z: i64 = SCALE;

/// Distance between the starting positions of consecutive actors.
pub const ACTOR_SPACING: i64 = 30 * SCALE;

/// How many actors the scene holds.
pub const ACTOR_COUNT: usize = 5;

/// Pivot of the body (the door swings with it).
pub const BODY_PIVOT_Y: i64 = 150733;

/// Pivot of the tail rotor.
pub const TAIL_PIVOT_X: i64 = 22938;
pub const TAIL_PIVOT_Y: i64 = 150733;
pub const TAIL_PIVOT_Z: i64 = 681574;

/// The door's two discrete states. There is no transition animation.
#[derive(Clone, Copy, PartialEq, Eq, Structural, Debug)]
pub enum DoorState {
    Closed,
    Open,
}

/// The door node's position for a state: exactly zero when closed, exactly
/// the open offset when open.
pub fn door_offset(d: DoorState) -> (r: Vec3)
    ensures
        d == DoorState::Open ==> r == (Vec3 { x: DOOR_OFFSET_X, y: 0, z: DOOR_OFFSET_Z }),
        d == DoorState::Closed ==> r == (Vec3 { x: 0, y: 0, z: 0 }),
        vec3_wf(r),
{
    match d {
        DoorState::Open => Vec3 { x: DOOR_OFFSET_X, y: 0, z: DOOR_OFFSET_Z },
        DoorState::Closed => Vec3 { x: 0, y: 0, z: 0 },
    }
}

/// The door state after scanning the held keys in insertion order: each
/// open key sets `Open`, each close key sets `Closed`, the last one wins.
pub open spec fn door_after(d: DoorState, keys: Seq<u32>) -> DoorState
    decreases keys.len(),
{
    if keys.len() == 0 {
        d
    } else {
        let d2 = if keys[0] == KEY_O {
            DoorState::Open
        } else if keys[0] == KEY_C {
            DoorState::Closed
        } else {
            d
        };
        door_after(d2, keys.drop_first())
    }
}

/// Scan the held keys for the door commands.
pub fn door_update(d: DoorState, keys: &PressedKeys) -> (r: DoorState)
    ensures
        r == door_after(d, keys.keys@),
{
    let mut cur = d;
    let mut i: usize = 0;
    let len = keys.keys.len();
    proof {
        assert(keys.keys@.skip(0) =~= keys.keys@);
    }
    while i < len
        invariant
            0 <= i <= len,
            len == keys.keys@.len(),
            door_after(d, keys.keys@) == door_after(cur, keys.keys@.skip(i as int)),
        decreases len - i,
    {
        let k = keys.keys[i];
        proof {
            let rest = keys.keys@.skip(i as int);
            assert(rest.len() > 0);
            assert(rest[0] == keys.keys@[i as int]);
            assert(rest.drop_first() =~= keys.keys@.skip(i as int + 1));
        }
        if k == KEY_O {
            cur = DoorState::Open;
        } else if k == KEY_C {
            cur = DoorState::Closed;
        }
        i += 1;
    }
    proof {
        assert(keys.keys@.skip(len as int).len() == 0);
    }
    cur
}

/// A sample of the external trajectory: planar position plus the three
/// orientation angles, the angles already turned into rotations.
pub struct Heading {
    pub x: i64,
    pub z: i64,
    pub pitch: Rot,
    pub yaw: Rot,
    pub roll: Rot,
}

pub open spec fn heading_wf(h: Heading) -> bool {
    &&& -(ENTRY_MAX as int) <= h.z <= ENTRY_MAX as int
    &&& rot_wf(h.pitch)
    &&& rot_wf(h.yaw)
    &&& rot_wf(h.roll)
}

/// The arena indices of one actor's parts.
#[derive(Clone, Copy, PartialEq, Eq, Structural, Debug)]
pub struct ActorNodes {
    pub root: usize,
    pub body: usize,
    pub door: usize,
    pub main_rotor: usize,
    pub tail_rotor: usize,
}

/// Build one helicopter subtree under `parent`: a grouping root with body,
/// main rotor and tail rotor as children, the door under the body, and the
/// pivots of the body and the tail rotor set.
pub fn build_actor(
    g: &mut SceneGraph,
    parent: usize,
    body_vao: u32, body_count: u32,
    door_vao: u32, door_count: u32,
    main_vao: u32, main_count: u32,
    tail_vao: u32, tail_count: u32,
) -> (r: ActorNodes)
    requires
        graph_wf(*old(g)),
        parent < old(g).nodes@.len(),
        old(g).nodes@.len() + 5 <= usize::MAX,
    ensures
        graph_wf(*final(g)),
        final(g).nodes@.len() == old(g).nodes@.len() + 5,
        r.root == old(g).nodes@.len(),
        r.body == old(g).nodes@.len() + 1,
        r.door == old(g).nodes@.len() + 2,
        r.main_rotor == old(g).nodes@.len() + 3,
        r.tail_rotor == old(g).nodes@.len() + 4,
        forall|j: int| 0 <= j < old(g).nodes@.len() && j != parent
            ==> final(g).nodes@[j] == old(g).nodes@[j],
        final(g).nodes@[parent as int].children@
            == old(g).nodes@[parent as int].children@.push(r.root),
        final(g).nodes@[parent as int].position == old(g).nodes@[parent as int].position,
        final(g).nodes@[parent as int].rotation == old(g).nodes@[parent as int].rotation,
        final(g).nodes@[parent as int].reference_point
            == old(g).nodes@[parent as int].reference_point,
        final(g).nodes@[parent as int].drawable == old(g).nodes@[parent as int].drawable,
        final(g).nodes@[r.root as int].children@
            == seq![r.body, r.main_rotor, r.tail_rotor],
        (final(g).nodes@[r.root as int].drawable is None),
        final(g).nodes@[r.body as int].children@ == seq![r.door],
        final(g).nodes@[r.body as int].drawable
            == (Some(crate::scene::Drawable { vao_id: body_vao, index_count: body_count })),
        final(g).nodes@[r.body as int].reference_point
            == (Vec3 { x: 0, y: BODY_PIVOT_Y, z: 0 }),
        final(g).nodes@[r.door as int].children@.len() == 0,
        final(g).nodes@[r.door as int].drawable
            == (Some(crate::scene::Drawable { vao_id: door_vao, index_count: door_count })),
        final(g).nodes@[r.main_rotor as int].children@.len() == 0,
        final(g).nodes@[r.main_rotor as int].drawable
            == (Some(crate::scene::Drawable { vao_id: main_vao, index_count: main_count })),
        final(g).nodes@[r.tail_rotor as int].children@.len() == 0,
        final(g).nodes@[r.tail_rotor as int].drawable
            == (Some(crate::scene::Drawable { vao_id: tail_vao, index_count: tail_count })),
        final(g).nodes@[r.tail_rotor as int].reference_point
            == (Vec3 { x: TAIL_PIVOT_X, y: TAIL_PIVOT_Y, z: TAIL_PIVOT_Z }),
{
    let root = g.new_node();
    let body = g.new_drawable_node(body_vao, body_count);
    let door = g.new_drawable_node(door_vao, door_count);
    let main_rotor = g.new_drawable_node(main_vao, main_count);
    let tail_rotor = g.new_drawable_node(tail_vao, tail_count);
    proof {
        assert(!graph_has_parent(*g, body));
        assert(!graph_has_parent(*g, door));
        assert(!graph_has_parent(*g, main_rotor));
        assert(!graph_has_parent(*g, tail_rotor));
        assert(!graph_has_parent(*g, root));
    }
    g.add_child(root, body);
    g.add_child(body, door);
    g.add_child(root, main_rotor);
    g.add_child(root, tail_rotor);
    g.add_child(parent, root);
    g.set_reference_point(body, Vec3 { x: 0, y: BODY_PIVOT_Y, z: 0 });
    g.set_reference_point(tail_rotor, Vec3 { x: TAIL_PIVOT_X, y: TAIL_PIVOT_Y, z: TAIL_PIVOT_Z });
    assert(g.nodes@[root as int].children@ =~= seq![body, main_rotor, tail_rotor]);
    assert(g.nodes@[body as int].children@ =~= seq![door]);
    ActorNodes { root, body, door, main_rotor, tail_rotor }
}

/// Apply one frame of animation to the actor rooted at `root`: place the
/// root on the trajectory sample offset by the actor's slot, spin the main
/// rotor about Y and the tail rotor about X, and put the door at its
/// state's offset. Child lookups that fall outside a node's child list fail
/// loudly with `IndexOutOfRange` and leave the graph untouched.
pub fn animate_actor(
    g: &mut SceneGraph,
    root: usize,
    n: usize,
    h: Heading,
    spin: Rot,
    door: DoorState,
) -> (r: Result<(), SceneError>)
    requires
        graph_wf(*old(g)),
        root < old(g).nodes@.len(),
        n < ACTOR_COUNT,
        heading_wf(h),
        rot_wf(spin),
        -(ENTRY_MAX as int) <= n * (ACTOR_SPACING as int) + h.x <= ENTRY_MAX as int,
    ensures
        graph_wf(*final(g)),
        final(g).nodes@.len() == old(g).nodes@.len(),
        r is Ok <==> (old(g).nodes@[root as int].children@.len() >= 3
            && old(g).nodes@[
                old(g).nodes@[root as int].children@[0] as int].children@.len() >= 1),
        r matches Err(e) ==> e == SceneError::IndexOutOfRange && *final(g) == *old(g),
        r is Ok ==> ({
            let body = old(g).nodes@[root as int].children@[0] as int;
            let main_rotor = old(g).nodes@[root as int].children@[1] as int;
            let tail_rotor = old(g).nodes@[root as int].children@[2] as int;
            let door_node = old(g).nodes@[body].children@[0] as int;
            &&& final(g).nodes@[root as int].position
                == (Vec3 { x: (n * ACTOR_SPACING + h.x) as i64, y: 0, z: h.z })
            &&& final(g).nodes@[root as int].rotation
                == (Rot3 { x: h.pitch, y: h.yaw, z: h.roll })
            &&& final(g).nodes@[main_rotor].rotation
                == (Rot3 { x: Rot { c: SCALE, s: 0 }, y: spin, z: Rot { c: SCALE, s: 0 } })
            &&& final(g).nodes@[tail_rotor].rotation
                == (Rot3 { x: spin, y: Rot { c: SCALE, s: 0 }, z: Rot { c: SCALE, s: 0 } })
            &&& final(g).nodes@[door_node].position == (if door == DoorState::Open {
                Vec3 { x: DOOR_OFFSET_X, y: 0, z: DOOR_OFFSET_Z }
            } else {
                Vec3 { x: 0, y: 0, z: 0 }
            })
            &&& forall|j: int| 0 <= j < old(g).nodes@.len()
                && j != root && j != main_rotor && j != tail_rotor && j != door_node
                ==> final(g).nodes@[j] == old(g).nodes@[j]
            &&& final(g).nodes@[root as int].children@
                == old(g).nodes@[root as int].children@
        }),
{
    let body = match g.child_at(root, 0) {
        Ok(c) => c,
        Err(e) => { return Err(e); },
    };
    let main_rotor = match g.child_at(root, 1) {
        Ok(c) => c,
        Err(e) => { return Err(e); },
    };
    let tail_rotor = match g.child_at(root, 2) {
        Ok(c) => c,
        Err(e) => { return Err(e); },
    };
    let door_node = match g.child_at(body, 0) {
        Ok(c) => c,
        Err(e) => { return Err(e); },
    };
    let offset: i64 = (n as i64) * ACTOR_SPACING;
    g.set_position(root, Vec3 { x: offset + h.x, y: 0, z: h.z });
    g.set_rotation(root, Rot3 { x: h.pitch, y: h.yaw, z: h.roll });
    let zero = Rot { c: SCALE, s: 0 };
    g.set_rotation(main_rotor, Rot3 { x: zero, y: spin, z: zero });
    g.set_rotation(tail_rotor, Rot3 { x: spin, y: zero, z: zero });
    g.set_position(door_node, door_offset(door));
    Ok(())
}

} // verus!
