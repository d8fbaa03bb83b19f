use gloom::math::{Mat4, Rot, Vec3, SCALE};
use gloom::render::render;
use gloom::scene::{Rot3, SceneError, SceneGraph};

#[test]
fn child_lookup_in_range_and_out_of_range() {
    let mut g = SceneGraph::new();
    let a = g.new_node();
    let b = g.new_drawable_node(7, 30);
    g.add_child(a, b);
    assert_eq!(g.child_at(a, 0), Ok(b));
    assert_eq!(g.child_at(a, 1), Err(SceneError::IndexOutOfRange));
    assert_eq!(g.child_at(b, 0), Err(SceneError::IndexOutOfRange));
}

#[test]
fn has_parent_tracks_adoption() {
    let mut g = SceneGraph::new();
    let a = g.new_node();
    let b = g.new_node();
    let c = g.new_node();
    assert!(!g.has_parent(b));
    g.add_child(a, b);
    assert!(g.has_parent(b));
    assert!(!g.has_parent(c));
    assert!(!g.has_parent(a));
}

#[test]
fn pivot_is_invisible_without_rotation() {
    // Two nodes at the same position, zero rotation, different pivots:
    // identical local transforms.
    let mut g = SceneGraph::new();
    let a = g.new_node();
    let b = g.new_node();
    g.set_position(a, Vec3::new(4 * SCALE, SCALE, -3 * SCALE));
    g.set_position(b, Vec3::new(4 * SCALE, SCALE, -3 * SCALE));
    g.set_reference_point(b, Vec3::new(9 * SCALE, -2 * SCALE, 5 * SCALE));
    let ma = g.node(a).local_matrix().unwrap();
    let mb = g.node(b).local_matrix().unwrap();
    assert_eq!(ma, mb);
    assert_eq!(ma, Mat4::translation(Vec3::new(4 * SCALE, SCALE, -3 * SCALE)));
}

#[test]
fn rotation_happens_about_the_pivot() {
    // A quarter turn about Z with pivot (1, 0, 0): the origin is carried to
    // (1, -1, 0) instead of staying in place.
    let mut g = SceneGraph::new();
    let a = g.new_node();
    g.set_rotation(a, Rot3::new(Rot::zero(), Rot::zero(), Rot::new(0, SCALE)));
    g.set_reference_point(a, Vec3::new(SCALE, 0, 0));
    let m = g.node(a).local_matrix().unwrap();
    // Image of the origin is the translation column.
    assert_eq!(m.e03, SCALE);
    assert_eq!(m.e13, -SCALE);
    assert_eq!(m.e23, 0);
}

#[test]
fn local_transform_composes_in_the_specified_order() {
    // pivot out, rotate Z, rotate Y, rotate X, pivot back, then position.
    let mut g = SceneGraph::new();
    let a = g.new_node();
    let rx = Rot::new(0, SCALE);
    let rz = Rot::new(0, -SCALE);
    g.set_position(a, Vec3::new(2 * SCALE, -SCALE, 4 * SCALE));
    g.set_rotation(a, Rot3::new(rx, Rot::zero(), rz));
    g.set_reference_point(a, Vec3::new(SCALE, 3 * SCALE, 0));
    let m = g.node(a).local_matrix().unwrap();
    let pivot = Vec3::new(SCALE, 3 * SCALE, 0);
    let by_hand = Mat4::translation(Vec3::new(2 * SCALE, -SCALE, 4 * SCALE))
        .mul(&Mat4::translation(pivot)
            .mul(&Mat4::rotation_x(rx)
                .mul(&Mat4::rotation_y(Rot::zero())
                    .mul(&Mat4::rotation_z(rz)
                        .mul(&Mat4::translation(pivot.neg()))
                        .unwrap())
                    .unwrap())
                .unwrap())
            .unwrap())
        .unwrap();
    assert_eq!(m, by_hand);
    // The reverse rotation order gives a different transform: the order is
    // load-bearing.
    let reversed = Mat4::translation(Vec3::new(2 * SCALE, -SCALE, 4 * SCALE))
        .mul(&Mat4::translation(pivot)
            .mul(&Mat4::rotation_z(rz)
                .mul(&Mat4::rotation_y(Rot::zero())
                    .mul(&Mat4::rotation_x(rx)
                        .mul(&Mat4::translation(pivot.neg()))
                        .unwrap())
                    .unwrap())
                .unwrap())
            .unwrap())
        .unwrap();
    assert_ne!(m, reversed);
}

#[test]
fn moving_a_parent_translates_every_descendant() {
    let offset = Vec3::new(11 * SCALE, -4 * SCALE, 2 * SCALE);
    let mut worlds_before: Vec<Mat4> = Vec::new();
    let mut worlds_after: Vec<Mat4> = Vec::new();
    for moved in [false, true] {
        let mut g = SceneGraph::new();
        let parent = g.new_drawable_node(1, 3);
        let child = g.new_drawable_node(2, 3);
        let grandchild = g.new_drawable_node(3, 3);
        g.add_child(parent, child);
        g.add_child(child, grandchild);
        g.set_position(child, Vec3::new(SCALE, 0, 0));
        g.set_rotation(grandchild, Rot3::new(Rot::new(0, SCALE), Rot::zero(), Rot::zero()));
        g.set_position(grandchild, Vec3::new(0, 2 * SCALE, 0));
        if moved {
            g.set_position(parent, offset);
        }
        let vp = Mat4::identity();
        let draws = render(&g, parent, &vp).unwrap();
        assert_eq!(draws.len(), 3);
        for d in draws {
            if moved {
                worlds_after.push(d.world);
            } else {
                worlds_before.push(d.world);
            }
        }
    }
    for (before, after) in worlds_before.iter().zip(worlds_after.iter()) {
        // The translation column moves by exactly the offset...
        assert_eq!(after.e03, before.e03 + offset.x);
        assert_eq!(after.e13, before.e13 + offset.y);
        assert_eq!(after.e23, before.e23 + offset.z);
        // ...and the rotation part is untouched.
        assert_eq!(after.e00, before.e00);
        assert_eq!(after.e01, before.e01);
        assert_eq!(after.e10, before.e10);
        assert_eq!(after.e11, before.e11);
        assert_eq!(after.e22, before.e22);
    }
}

#[test]
fn submitted_pair_is_projected_and_world_transform() {
    let mut g = SceneGraph::new();
    let root = g.new_drawable_node(5, 12);
    g.set_position(root, Vec3::new(7 * SCALE, 0, -2 * SCALE));
    let vp = Mat4::translation(Vec3::new(SCALE, 2 * SCALE, 3 * SCALE));
    let draws = render(&g, root, &vp).unwrap();
    assert_eq!(draws.len(), 1);
    let d = &draws[0];
    // The world transform is the node's local translation...
    assert_eq!(d.world, Mat4::translation(Vec3::new(7 * SCALE, 0, -2 * SCALE)));
    // ...and the submitted clip-space transform is vp composed onto it.
    assert_eq!(d.mvp, Mat4::translation(Vec3::new(8 * SCALE, 2 * SCALE, SCALE)));
    assert_eq!((d.vao_id, d.index_count), (5, 12));
}

#[test]
fn traversal_is_preorder_and_skips_grouping_nodes() {
    let mut g = SceneGraph::new();
    let root = g.new_node(); // grouping node, no draw call
    let a = g.new_drawable_node(10, 6);
    let b = g.new_drawable_node(11, 0); // zero index count: grouping only
    let c = g.new_drawable_node(12, 9);
    g.add_child(root, a);
    g.add_child(root, b);
    g.add_child(b, c);
    let vp = Mat4::identity();
    let draws = render(&g, root, &vp).unwrap();
    let vaos: Vec<u32> = draws.iter().map(|d| d.vao_id).collect();
    assert_eq!(vaos, vec![10, 12]);
}
