//! The scene graph: a pool of nodes, each with a local transform, a pivot
//! ("reference point"), optional drawable geometry, and child links.
//!
//! Nodes live in one arena and children are indices into it. A parent's index
//! is always smaller than its children's, so the tree is acyclic by
//! construction, and every node has at most one parent: adding a node under
//! two parents is a caller error and is excluded by precondition.
//!
//! A node's local transform composes, rightmost applied first: translate by
//! the negated pivot, rotate about Z, then Y, then X, translate the pivot
//! back, then translate by the node's position.

use vstd::prelude::*;
use crate::math::{
    Vec3, Rot, Mat4, M4, vec3_wf, rot_wf, rot_is_zero, m4_wf, m4_affine,
    sm_identity, sm_translation, sm_rot_x, sm_rot_y, sm_rot_z, sm_mul, sm_shift,
    lemma_affine_mul, lemma_identity_left, lemma_identity_right,
    lemma_translation_compose, lemma_rot_zero_identity, lemma_shift_mul,
};

verus! {

/// Geometry attached to a node: a vertex-array handle and how many indices
/// to draw. A zero index count marks a pure grouping node.
#[derive(Clone, Copy, PartialEq, Eq, Structural, Debug)]
pub struct Drawable {
    pub vao_id: u32,
    pub index_count: u32,
}

/// Per-axis rotation of a node, one scaled cosine/sine pair per axis.
#[derive(Clone, Copy, PartialEq, Eq, Structural, Debug)]
pub struct Rot3 {
    pub x: Rot,
    pub y: Rot,
    pub z: Rot,
}

pub open spec fn rot3_wf(r: Rot3) -> bool {
    rot_wf(r.x) && rot_wf(r.y) && rot_wf(r.z)
}

pub open spec fn rot3_is_zero(r: Rot3) -> bool {
    rot_is_zero(r.x) && rot_is_zero(r.y) && rot_is_zero(r.z)
}

impl Rot3 {
    pub fn zero() -> (r: Rot3)
        ensures
            rot3_is_zero(r),
            rot3_wf(r),
    {
        Rot3 { x: Rot::zero(), y: Rot::zero(), z: Rot::zero() }
    }

    pub fn new(x: Rot, y: Rot, z: Rot) -> (r: Rot3)
        ensures
            r.x == x && r.y == y && r.z == z,
    {
        Rot3 { x, y, z }
    }
}

/// One node of the scene graph.
pub struct SceneNode {
    pub position: Vec3,
    pub rotation: Rot3,
    pub reference_point: Vec3,
    pub drawable: Option<Drawable>,
    pub children: Vec<usize>,
}

pub open spec fn node_wf(n: SceneNode) -> bool {
    vec3_wf(n.position) && vec3_wf(n.reference_point) && rot3_wf(n.rotation)
}

/// The node's local transform, exact over the integers:
/// `T(position) * T(pivot) * Rx * Ry * Rz * T(-pivot)`.
pub open spec fn sm_local(n: SceneNode) -> M4 {
    sm_mul(
        sm_translation(n.position.x as int, n.position.y as int, n.position.z as int),
        sm_mul(
            sm_translation(
                n.reference_point.x as int,
                n.reference_point.y as int,
                n.reference_point.z as int,
            ),
            sm_mul(
                sm_rot_x(n.rotation.x.c as int, n.rotation.x.s as int),
                sm_mul(
                    sm_rot_y(n.rotation.y.c as int, n.rotation.y.s as int),
                    sm_mul(
                        sm_rot_z(n.rotation.z.c as int, n.rotation.z.s as int),
                        sm_translation(
                            -(n.reference_point.x as int),
                            -(n.reference_point.y as int),
                            -(n.reference_point.z as int),
                        ),
                    ),
                ),
            ),
        ),
    )
}

/// Whether every partial product of the local transform stays within entry
/// bounds, so the executable computation succeeds.
pub open spec fn local_fits(n: SceneNode) -> bool {
    let tn = sm_translation(
        -(n.reference_point.x as int),
        -(n.reference_point.y as int),
        -(n.reference_point.z as int),
    );
    let m1 = sm_mul(sm_rot_z(n.rotation.z.c as int, n.rotation.z.s as int), tn);
    let m2 = sm_mul(sm_rot_y(n.rotation.y.c as int, n.rotation.y.s as int), m1);
    let m3 = sm_mul(sm_rot_x(n.rotation.x.c as int, n.rotation.x.s as int), m2);
    let m4 = sm_mul(
        sm_translation(
            n.reference_point.x as int,
            n.reference_point.y as int,
            n.reference_point.z as int,
        ),
        m3,
    );
    let m5 = sm_mul(
        sm_translation(n.position.x as int, n.position.y as int, n.position.z as int),
        m4,
    );
    m4_wf(m1) && m4_wf(m2) && m4_wf(m3) && m4_wf(m4) && m4_wf(m5)
}

impl SceneNode {
    /// The local transform as a fixed-point matrix; `None` exactly when an
    /// intermediate product leaves the representable entry range.
    pub fn local_matrix(&self) -> (r: Option<Mat4>)
        requires
            node_wf(*self),
        ensures
            r is Some <==> local_fits(*self),
            r matches Some(m) ==> m@ == sm_local(*self) && m4_wf(m@),
    {
        let t_neg = Mat4::translation(self.reference_point.neg());
        let rz = Mat4::rotation_z(self.rotation.z);
        let ry = Mat4::rotation_y(self.rotation.y);
        let rx = Mat4::rotation_x(self.rotation.x);
        let t_ref = Mat4::translation(self.reference_point);
        let t_pos = Mat4::translation(self.position);
        let m1 = match rz.mul(&t_neg) {
            Some(m) => m,
            None => { return None; },
        };
        let m2 = match ry.mul(&m1) {
            Some(m) => m,
            None => { return None; },
        };
        let m3 = match rx.mul(&m2) {
            Some(m) => m,
            None => { return None; },
        };
        let m4 = match t_ref.mul(&m3) {
            Some(m) => m,
            None => { return None; },
        };
        let m5 = match t_pos.mul(&m4) {
            Some(m) => m,
            None => { return None; },
        };
        Some(m5)
    }
}

/// A node's local transform is affine: its bottom row never changes.
pub proof fn lemma_local_affine(n: SceneNode)
    ensures
        m4_affine(sm_local(n)),
{
    let tn = sm_translation(
        -(n.reference_point.x as int),
        -(n.reference_point.y as int),
        -(n.reference_point.z as int),
    );
    let rz = sm_rot_z(n.rotation.z.c as int, n.rotation.z.s as int);
    let ry = sm_rot_y(n.rotation.y.c as int, n.rotation.y.s as int);
    let rx = sm_rot_x(n.rotation.x.c as int, n.rotation.x.s as int);
    let tr = sm_translation(
        n.reference_point.x as int,
        n.reference_point.y as int,
        n.reference_point.z as int,
    );
    let tp = sm_translation(n.position.x as int, n.position.y as int, n.position.z as int);
    lemma_affine_mul(rz, tn);
    lemma_affine_mul(ry, sm_mul(rz, tn));
    lemma_affine_mul(rx, sm_mul(ry, sm_mul(rz, tn)));
    lemma_affine_mul(tr, sm_mul(rx, sm_mul(ry, sm_mul(rz, tn))));
    lemma_affine_mul(tp, sm_mul(tr, sm_mul(rx, sm_mul(ry, sm_mul(rz, tn)))));
}

/// With a zero rotation the pivot cancels out exactly: the local transform
/// is the plain translation by the node's position.
pub proof fn lemma_local_no_rotation(n: SceneNode)
    requires
        rot3_is_zero(n.rotation),
    ensures
        sm_local(n) == sm_translation(n.position.x as int, n.position.y as int, n.position.z as int),
{
    let tn = sm_translation(
        -(n.reference_point.x as int),
        -(n.reference_point.y as int),
        -(n.reference_point.z as int),
    );
    let tr = sm_translation(
        n.reference_point.x as int,
        n.reference_point.y as int,
        n.reference_point.z as int,
    );
    let tp = sm_translation(n.position.x as int, n.position.y as int, n.position.z as int);
    lemma_rot_zero_identity();
    assert(sm_rot_z(n.rotation.z.c as int, n.rotation.z.s as int) == sm_identity());
    assert(sm_rot_y(n.rotation.y.c as int, n.rotation.y.s as int) == sm_identity());
    assert(sm_rot_x(n.rotation.x.c as int, n.rotation.x.s as int) == sm_identity());
    lemma_identity_left(tn);
    lemma_translation_compose(
        n.reference_point.x as int,
        n.reference_point.y as int,
        n.reference_point.z as int,
        -(n.reference_point.x as int),
        -(n.reference_point.y as int),
        -(n.reference_point.z as int),
    );
    assert(sm_mul(tr, tn) == sm_translation(0, 0, 0));
    assert(sm_translation(0, 0, 0) == sm_identity());
    lemma_identity_right(tp);
}

/// Pivot invariance: two nodes at the same position with zero rotation have
/// the same local transform, whatever their pivots.
pub proof fn lemma_pivot_invariant(n1: SceneNode, n2: SceneNode)
    requires
        rot3_is_zero(n1.rotation),
        rot3_is_zero(n2.rotation),
        n1.position == n2.position,
    ensures
        sm_local(n1) == sm_local(n2),
        sm_local(n1) == sm_translation(
            n1.position.x as int,
            n1.position.y as int,
            n1.position.z as int,
        ),
{
    lemma_local_no_rotation(n1);
    lemma_local_no_rotation(n2);
}

/// Moving a node's position by `(tx, ty, tz)` shifts its local transform's
/// translation column by exactly that much and changes nothing else.
pub proof fn lemma_local_position_shift(n1: SceneNode, n2: SceneNode, tx: int, ty: int, tz: int)
    requires
        n2.rotation == n1.rotation,
        n2.reference_point == n1.reference_point,
        n2.position.x == n1.position.x + tx,
        n2.position.y == n1.position.y + ty,
        n2.position.z == n1.position.z + tz,
    ensures
        sm_local(n2) == sm_shift(sm_local(n1), tx, ty, tz),
{
    let tn = sm_translation(
        -(n1.reference_point.x as int),
        -(n1.reference_point.y as int),
        -(n1.reference_point.z as int),
    );
    let rz = sm_rot_z(n1.rotation.z.c as int, n1.rotation.z.s as int);
    let ry = sm_rot_y(n1.rotation.y.c as int, n1.rotation.y.s as int);
    let rx = sm_rot_x(n1.rotation.x.c as int, n1.rotation.x.s as int);
    let tr = sm_translation(
        n1.reference_point.x as int,
        n1.reference_point.y as int,
        n1.reference_point.z as int,
    );
    let chain = sm_mul(tr, sm_mul(rx, sm_mul(ry, sm_mul(rz, tn))));
    lemma_affine_mul(rz, tn);
    lemma_affine_mul(ry, sm_mul(rz, tn));
    lemma_affine_mul(rx, sm_mul(ry, sm_mul(rz, tn)));
    lemma_affine_mul(tr, sm_mul(rx, sm_mul(ry, sm_mul(rz, tn))));
    let tp1 = sm_translation(n1.position.x as int, n1.position.y as int, n1.position.z as int);
    let tp2 = sm_translation(n2.position.x as int, n2.position.y as int, n2.position.z as int);
    assert(tp2 == sm_shift(tp1, tx, ty, tz));
    lemma_shift_mul(tp1, chain, tx, ty, tz);
}

/// Failure of a child lookup: the index is beyond the node's child list.
#[derive(Clone, Copy, PartialEq, Eq, Structural, Debug)]
pub enum SceneError {
    IndexOutOfRange,
}

/// The node arena.
pub struct SceneGraph {
    pub nodes: Vec<SceneNode>,
}

/// Every child link points forward in the arena and stays in bounds.
pub open spec fn graph_index_wf(g: SceneGraph) -> bool {
    forall|i: int, k: int|
        0 <= i < g.nodes@.len() && 0 <= k < g.nodes@[i].children@.len()
            ==> i < #[trigger] g.nodes@[i].children@[k] && g.nodes@[i].children@[k] < g.nodes@.len()
}

/// Every node's scalars are within range.
pub open spec fn graph_nodes_wf(g: SceneGraph) -> bool {
    forall|i: int| 0 <= i < g.nodes@.len() ==> node_wf(#[trigger] g.nodes@[i])
}

/// No node is listed as a child twice: each node has at most one parent,
/// and appears at most once in that parent's list.
pub open spec fn graph_single_parent(g: SceneGraph) -> bool {
    forall|i1: int, k1: int, i2: int, k2: int|
        0 <= i1 < g.nodes@.len() && 0 <= k1 < g.nodes@[i1].children@.len()
            && 0 <= i2 < g.nodes@.len() && 0 <= k2 < g.nodes@[i2].children@.len()
            && !(i1 == i2 && k1 == k2)
            ==> #[trigger] g.nodes@[i1].children@[k1] != #[trigger] g.nodes@[i2].children@[k2]
}

pub open spec fn graph_wf(g: SceneGraph) -> bool {
    graph_index_wf(g) && graph_nodes_wf(g) && graph_single_parent(g)
}

/// Whether some node already lists `c` as a child.
pub open spec fn graph_has_parent(g: SceneGraph, c: usize) -> bool {
    exists|i: int, k: int|
        0 <= i < g.nodes@.len() && 0 <= k < g.nodes@[i].children@.len()
            && #[trigger] g.nodes@[i].children@[k] == c
}

/// Linear search for an index in a child list.
fn contains_index(v: &Vec<usize>, x: usize) -> (r: bool)
    ensures
        r == v@.contains(x),
{
    let mut k: usize = 0;
    while k < v.len()
        invariant
            0 <= k <= v@.len(),
            forall|j: int| 0 <= j < k ==> v@[j] != x,
        decreases v@.len() - k,
    {
        if v[k] == x {
            assert(v@[k as int] == x);
            return true;
        }
        k += 1;
    }
    assert(!v@.contains(x));
    false
}

impl SceneGraph {
    pub fn new() -> (g: SceneGraph)
        ensures
            g.nodes@.len() == 0,
            graph_wf(g),
    {
        SceneGraph { nodes: Vec::new() }
    }

    pub fn len(&self) -> (r: usize)
        ensures
            r == self.nodes@.len(),
    {
        self.nodes.len()
    }

    pub fn node(&self, i: usize) -> (r: &SceneNode)
        requires
            i < self.nodes@.len(),
        ensures
            *r == self.nodes@[i as int],
    {
        &self.nodes[i]
    }

    /// Append a fresh grouping node (no geometry) and hand back its index.
    pub fn new_node(&mut self) -> (idx: usize)
        requires
            graph_wf(*old(self)),
            old(self).nodes@.len() < usize::MAX,
        ensures
            graph_wf(*final(self)),
            idx == old(self).nodes@.len(),
            final(self).nodes@.len() == old(self).nodes@.len() + 1,
            forall|j: int| 0 <= j < old(self).nodes@.len()
                ==> final(self).nodes@[j] == old(self).nodes@[j],
            final(self).nodes@[idx as int].position == (Vec3 { x: 0, y: 0, z: 0 }),
            rot3_is_zero(final(self).nodes@[idx as int].rotation),
            final(self).nodes@[idx as int].reference_point == (Vec3 { x: 0, y: 0, z: 0 }),
            (final(self).nodes@[idx as int].drawable is None),
            final(self).nodes@[idx as int].children@.len() == 0,
            node_wf(final(self).nodes@[idx as int]),
    {
        let idx = self.nodes.len();
        let n = SceneNode {
            position: Vec3::zero(),
            rotation: Rot3::zero(),
            reference_point: Vec3::zero(),
            drawable: None,
            children: Vec::new(),
        };
        self.nodes.push(n);
        idx
    }

    /// Append a fresh node that owns geometry, and hand back its index.
    pub fn new_drawable_node(&mut self, vao_id: u32, index_count: u32) -> (idx: usize)
        requires
            graph_wf(*old(self)),
            old(self).nodes@.len() < usize::MAX,
        ensures
            graph_wf(*final(self)),
            idx == old(self).nodes@.len(),
            final(self).nodes@.len() == old(self).nodes@.len() + 1,
            forall|j: int| 0 <= j < old(self).nodes@.len()
                ==> final(self).nodes@[j] == old(self).nodes@[j],
            final(self).nodes@[idx as int].position == (Vec3 { x: 0, y: 0, z: 0 }),
            rot3_is_zero(final(self).nodes@[idx as int].rotation),
            final(self).nodes@[idx as int].reference_point == (Vec3 { x: 0, y: 0, z: 0 }),
            final(self).nodes@[idx as int].drawable == (Some(Drawable { vao_id, index_count })),
            final(self).nodes@[idx as int].children@.len() == 0,
            node_wf(final(self).nodes@[idx as int]),
    {
        let idx = self.nodes.len();
        let n = SceneNode {
            position: Vec3::zero(),
            rotation: Rot3::zero(),
            reference_point: Vec3::zero(),
            drawable: Some(Drawable { vao_id, index_count }),
            children: Vec::new(),
        };
        self.nodes.push(n);
        idx
    }

    /// Whether some node already owns `child`.
    pub fn has_parent(&self, child: usize) -> (r: bool)
        ensures
            r == graph_has_parent(*self, child),
    {
        let mut i: usize = 0;
        while i < self.nodes.len()
            invariant
                0 <= i <= self.nodes@.len(),
                forall|i0: int, k0: int|
                    0 <= i0 < i && 0 <= k0 < self.nodes@[i0].children@.len()
                        ==> #[trigger] self.nodes@[i0].children@[k0] != child,
            decreases self.nodes@.len() - i,
        {
            if contains_index(&self.nodes[i].children, child) {
                proof {
                    let k0 = choose|k0: int|
                        0 <= k0 < self.nodes@[i as int].children@.len()
                            && self.nodes@[i as int].children@[k0] == child;
                    assert(self.nodes@[i as int].children@[k0] == child);
                }
                return true;
            }
            i += 1;
        }
        false
    }

    /// Transfer `child` into `parent`'s child list, appended at the end.
    /// The child must be a later node than the parent and must not already
    /// have a parent: a node may be adopted only once.
    pub fn add_child(&mut self, parent: usize, child: usize)
        requires
            graph_wf(*old(self)),
            parent < child,
            child < old(self).nodes@.len(),
            !graph_has_parent(*old(self), child),
        ensures
            graph_wf(*final(self)),
            final(self).nodes@.len() == old(self).nodes@.len(),
            forall|j: int| 0 <= j < old(self).nodes@.len() && j != parent
                ==> final(self).nodes@[j] == old(self).nodes@[j],
            final(self).nodes@[parent as int].children@
                == old(self).nodes@[parent as int].children@.push(child),
            final(self).nodes@[parent as int].position == old(self).nodes@[parent as int].position,
            final(self).nodes@[parent as int].rotation == old(self).nodes@[parent as int].rotation,
            final(self).nodes@[parent as int].reference_point
                == old(self).nodes@[parent as int].reference_point,
            final(self).nodes@[parent as int].drawable == old(self).nodes@[parent as int].drawable,
    {
        self.nodes[parent].children.push(child);
    }

    /// Look up the `i`-th child of a node; fails loudly when `i` is out of
    /// range rather than handing back a default node.
    pub fn child_at(&self, node: usize, i: usize) -> (r: Result<usize, SceneError>)
        requires
            graph_wf(*self),
            node < self.nodes@.len(),
        ensures
            r matches Ok(c) ==> i < self.nodes@[node as int].children@.len()
                && c == self.nodes@[node as int].children@[i as int]
                && node < c < self.nodes@.len(),
            r is Err <==> i >= self.nodes@[node as int].children@.len(),
            r matches Err(e) ==> e == SceneError::IndexOutOfRange,
    {
        let ch = &self.nodes[node].children;
        if i < ch.len() {
            Ok(ch[i])
        } else {
            Err(SceneError::IndexOutOfRange)
        }
    }

    /// Replace a node's position.
    pub fn set_position(&mut self, i: usize, v: Vec3)
        requires
            graph_wf(*old(self)),
            i < old(self).nodes@.len(),
            vec3_wf(v),
        ensures
            graph_wf(*final(self)),
            final(self).nodes@.len() == old(self).nodes@.len(),
            forall|j: int| 0 <= j < old(self).nodes@.len() && j != i
                ==> final(self).nodes@[j] == old(self).nodes@[j],
            final(self).nodes@[i as int].position == v,
            final(self).nodes@[i as int].rotation == old(self).nodes@[i as int].rotation,
            final(self).nodes@[i as int].reference_point
                == old(self).nodes@[i as int].reference_point,
            final(self).nodes@[i as int].drawable == old(self).nodes@[i as int].drawable,
            final(self).nodes@[i as int].children@ == old(self).nodes@[i as int].children@,
    {
        self.nodes[i].position = v;
    }

    /// Replace a node's rotation.
    pub fn set_rotation(&mut self, i: usize, r: Rot3)
        requires
            graph_wf(*old(self)),
            i < old(self).nodes@.len(),
            rot3_wf(r),
        ensures
            graph_wf(*final(self)),
            final(self).nodes@.len() == old(self).nodes@.len(),
            forall|j: int| 0 <= j < old(self).nodes@.len() && j != i
                ==> final(self).nodes@[j] == old(self).nodes@[j],
            final(self).nodes@[i as int].rotation == r,
            final(self).nodes@[i as int].position == old(self).nodes@[i as int].position,
            final(self).nodes@[i as int].reference_point
                == old(self).nodes@[i as int].reference_point,
            final(self).nodes@[i as int].drawable == old(self).nodes@[i as int].drawable,
            final(self).nodes@[i as int].children@ == old(self).nodes@[i as int].children@,
    {
        self.nodes[i].rotation = r;
    }

    /// Replace a node's pivot.
    pub fn set_reference_point(&mut self, i: usize, v: Vec3)
        requires
            graph_wf(*old(self)),
            i < old(self).nodes@.len(),
            vec3_wf(v),
        ensures
            graph_wf(*final(self)),
            final(self).nodes@.len() == old(self).nodes@.len(),
            forall|j: int| 0 <= j < old(self).nodes@.len() && j != i
                ==> final(self).nodes@[j] == old(self).nodes@[j],
            final(self).nodes@[i as int].reference_point == v,
            final(self).nodes@[i as int].position == old(self).nodes@[i as int].position,
            final(self).nodes@[i as int].rotation == old(self).nodes@[i as int].rotation,
            final(self).nodes@[i as int].drawable == old(self).nodes@[i as int].drawable,
            final(self).nodes@[i as int].children@ == old(self).nodes@[i as int].children@,
    {
        self.nodes[i].reference_point = v;
    }
}

} // verus!
