//! Scene-graph traversal: compose world transforms top-down and collect a
//! draw submission for every node that owns geometry with a non-zero index
//! count. Traversal is pre-order — a parent's submission comes before its
//! children's — and the accumulated parent transform is passed down
//! explicitly, so the traversal is reentrant.

use vstd::prelude::*;
use crate::math::{
    Mat4, M4, m4_wf, m4_affine, sm_identity, sm_mul, sm_shift,
    lemma_affine_mul, lemma_identity_left, lemma_shift_mul,
};
use crate::scene::{
    SceneGraph, SceneNode, graph_wf, graph_index_wf, sm_local, local_fits,
    lemma_local_affine, lemma_local_position_shift,
};

verus! {

/// One draw submission: clip-space transform, world transform, geometry.
#[derive(Clone, Copy, PartialEq, Eq, Structural, Debug)]
pub struct DrawCall {
    pub mvp: Mat4,
    pub world: Mat4,
    pub vao_id: u32,
    pub index_count: u32,
}

/// Mathematical model of a draw submission.
pub ghost struct DrawV {
    pub mvp: M4,
    pub world: M4,
    pub vao_id: u32,
    pub index_count: u32,
}

impl View for DrawCall {
    type V = DrawV;

    open spec fn view(&self) -> DrawV {
        DrawV {
            mvp: self.mvp@,
            world: self.world@,
            vao_id: self.vao_id,
            index_count: self.index_count,
        }
    }
}

/// Whether a node submits a draw call: it owns geometry whose index count
/// is non-zero (a zero count marks a pure grouping node).
pub open spec fn node_emits(n: SceneNode) -> bool {
    match n.drawable {
        Some(d) => d.index_count > 0,
        None => false,
    }
}

pub open spec fn node_vao(n: SceneNode) -> u32 {
    match n.drawable {
        Some(d) => d.vao_id,
        None => 0,
    }
}

pub open spec fn node_index_count(n: SceneNode) -> u32 {
    match n.drawable {
        Some(d) => d.index_count,
        None => 0,
    }
}

/// The draw submissions of the subtree rooted at `i`, in traversal order,
/// given the view-projection matrix and the accumulated parent transform.
pub open spec fn node_draws(g: SceneGraph, i: int, vp: M4, acc: M4) -> Seq<DrawV>
    decreases g.nodes@.len() - i, g.nodes@[i].children@.len() + 1,
        when 0 <= i < g.nodes@.len() && graph_index_wf(g)
{
    let n = g.nodes@[i];
    let world = sm_mul(acc, sm_local(n));
    let own: Seq<DrawV> = if node_emits(n) {
        seq![DrawV {
            mvp: sm_mul(vp, world),
            world: world,
            vao_id: node_vao(n),
            index_count: node_index_count(n),
        }]
    } else {
        Seq::empty()
    };
    own + children_draws(g, i, 0, vp, world)
}

/// The draw submissions of children `k..` of node `i`, each subtree under
/// the node's own world transform.
pub open spec fn children_draws(g: SceneGraph, i: int, k: int, vp: M4, world: M4) -> Seq<DrawV>
    decreases g.nodes@.len() - i, g.nodes@[i].children@.len() - k,
        when 0 <= i < g.nodes@.len() && 0 <= k <= g.nodes@[i].children@.len() && graph_index_wf(g)
{
    if k >= g.nodes@[i].children@.len() {
        Seq::empty()
    } else {
        node_draws(g, g.nodes@[i].children@[k] as int, vp, world)
            + children_draws(g, i, k + 1, vp, world)
    }
}

/// Whether every matrix product in the subtree's traversal stays within
/// entry bounds, so the executable traversal succeeds.
pub open spec fn node_draws_fit(g: SceneGraph, i: int, vp: M4, acc: M4) -> bool
    decreases g.nodes@.len() - i, g.nodes@[i].children@.len() + 1,
        when 0 <= i < g.nodes@.len() && graph_index_wf(g)
{
    let n = g.nodes@[i];
    let world = sm_mul(acc, sm_local(n));
    &&& local_fits(n)
    &&& m4_wf(world)
    &&& (node_emits(n) ==> m4_wf(sm_mul(vp, world)))
    &&& children_draws_fit(g, i, 0, vp, world)
}

pub open spec fn children_draws_fit(g: SceneGraph, i: int, k: int, vp: M4, world: M4) -> bool
    decreases g.nodes@.len() - i, g.nodes@[i].children@.len() - k,
        when 0 <= i < g.nodes@.len() && 0 <= k <= g.nodes@[i].children@.len() && graph_index_wf(g)
{
    ||| k >= g.nodes@[i].children@.len()
    ||| (node_draws_fit(g, g.nodes@[i].children@[k] as int, vp, world)
        && children_draws_fit(g, i, k + 1, vp, world))
}

fn render_rec(g: &SceneGraph, i: usize, vp: &Mat4, acc: &Mat4, out: &mut Vec<DrawCall>) -> (ok: bool)
    requires
        graph_wf(*g),
        i < g.nodes@.len(),
        m4_wf(vp@),
        m4_wf(acc@),
    ensures
        ok <==> node_draws_fit(*g, i as int, vp@, acc@),
        ok ==> final(out)@.map_values(|d: DrawCall| d@)
            == old(out)@.map_values(|d: DrawCall| d@) + node_draws(*g, i as int, vp@, acc@),
    decreases g.nodes@.len() - i,
{
    let n = g.node(i);
    let local = match n.local_matrix() {
        Some(m) => m,
        None => { return false; },
    };
    let world = match acc.mul(&local) {
        Some(m) => m,
        None => { return false; },
    };
    let ghost own: Seq<DrawV> = if node_emits(*n) {
        seq![DrawV {
            mvp: sm_mul(vp@, world@),
            world: world@,
            vao_id: node_vao(*n),
            index_count: node_index_count(*n),
        }]
    } else {
        Seq::empty()
    };
    match n.drawable {
        Some(d) => {
            if d.index_count > 0 {
                let mvp = match vp.mul(&world) {
                    Some(m) => m,
                    None => { return false; },
                };
                out.push(DrawCall { mvp, world, vao_id: d.vao_id, index_count: d.index_count });
            }
        },
        None => {},
    }
    assert(out@.map_values(|d: DrawCall| d@)
        =~= old(out)@.map_values(|d: DrawCall| d@) + own);
    let num_children = n.children.len();
    let mut k: usize = 0;
    while k < num_children
        invariant
            graph_wf(*g),
            i < g.nodes@.len(),
            m4_wf(vp@),
            m4_wf(world@),
            *n == g.nodes@[i as int],
            num_children == n.children@.len(),
            0 <= k <= num_children,
            world@ == sm_mul(acc@, sm_local(g.nodes@[i as int])),
            children_draws_fit(*g, i as int, 0, vp@, world@)
                <==> children_draws_fit(*g, i as int, k as int, vp@, world@),
            out@.map_values(|d: DrawCall| d@) + children_draws(*g, i as int, k as int, vp@, world@)
                == old(out)@.map_values(|d: DrawCall| d@) + own
                    + children_draws(*g, i as int, 0, vp@, world@),
        decreases num_children - k,
    {
        let c = n.children[k];
        assert(c == g.nodes@[i as int].children@[k as int]);
        assert(i < c < g.nodes@.len());
        let ghost out_before = out@.map_values(|d: DrawCall| d@);
        if !render_rec(g, c, vp, &world, out) {
            assert(!node_draws_fit(*g, c as int, vp@, world@));
            assert(!children_draws_fit(*g, i as int, k as int, vp@, world@));
            return false;
        }
        proof {
            let m1 = out@.map_values(|d: DrawCall| d@);
            assert(m1 == out_before + node_draws(*g, c as int, vp@, world@));
            assert(children_draws(*g, i as int, k as int, vp@, world@)
                == node_draws(*g, c as int, vp@, world@)
                    + children_draws(*g, i as int, k + 1, vp@, world@));
            assert(m1 + children_draws(*g, i as int, k + 1, vp@, world@)
                =~= out_before + children_draws(*g, i as int, k as int, vp@, world@));
        }
        k += 1;
    }
    assert(children_draws(*g, i as int, k as int, vp@, world@) =~= Seq::<DrawV>::empty());
    assert(out@.map_values(|d: DrawCall| d@)
        =~= out@.map_values(|d: DrawCall| d@)
            + children_draws(*g, i as int, k as int, vp@, world@));
    assert(node_draws(*g, i as int, vp@, acc@)
        == own + children_draws(*g, i as int, 0, vp@, world@));
    true
}

/// Traverse the subtree rooted at `root` with the identity as the initial
/// accumulated transform, collecting one draw submission per drawable node
/// in pre-order. `None` exactly when some composed transform leaves the
/// representable range. The caller guarantees a well-formed graph; the
/// traversal does not detect cycles (the arena's index ordering excludes
/// them by construction).
pub fn render(g: &SceneGraph, root: usize, vp: &Mat4) -> (r: Option<Vec<DrawCall>>)
    requires
        graph_wf(*g),
        root < g.nodes@.len(),
        m4_wf(vp@),
    ensures
        r is Some <==> node_draws_fit(*g, root as int, vp@, sm_identity()),
        r matches Some(v) ==> v@.map_values(|d: DrawCall| d@)
            == node_draws(*g, root as int, vp@, sm_identity()),
{
    let identity = Mat4::identity();
    let mut out: Vec<DrawCall> = Vec::new();
    let ghost empty_map = out@.map_values(|d: DrawCall| d@);
    assert(empty_map =~= Seq::<DrawV>::empty());
    if render_rec(g, root, vp, &identity, &mut out) {
        assert(out@.map_values(|d: DrawCall| d@)
            =~= node_draws(*g, root as int, vp@, sm_identity()));
        Some(out)
    } else {
        None
    }
}

/// Relation between two draw lists: same geometry in the same order, with
/// every world transform moved by `(tx, ty, tz)` and its rotation part --
/// everything outside the translation column -- untouched.
pub open spec fn draws_shifted(s1: Seq<DrawV>, s2: Seq<DrawV>, tx: int, ty: int, tz: int) -> bool {
    &&& s2.len() == s1.len()
    &&& forall|j: int| 0 <= j < s1.len()
        ==> (#[trigger] s2[j]).world == sm_shift(s1[j].world, tx, ty, tz)
            && s2[j].vao_id == s1[j].vao_id
            && s2[j].index_count == s1[j].index_count
}

proof fn lemma_draws_shifted_concat(
    a1: Seq<DrawV>, b1: Seq<DrawV>, a2: Seq<DrawV>, b2: Seq<DrawV>,
    tx: int, ty: int, tz: int,
)
    requires
        draws_shifted(a1, a2, tx, ty, tz),
        draws_shifted(b1, b2, tx, ty, tz),
    ensures
        draws_shifted(a1 + b1, a2 + b2, tx, ty, tz),
{
    assert forall|j: int| 0 <= j < (a1 + b1).len() implies
        (#[trigger] (a2 + b2)[j]).world == sm_shift((a1 + b1)[j].world, tx, ty, tz)
            && (a2 + b2)[j].vao_id == (a1 + b1)[j].vao_id
            && (a2 + b2)[j].index_count == (a1 + b1)[j].index_count
    by {
        if j < a1.len() {
            assert((a1 + b1)[j] == a1[j]);
            assert((a2 + b2)[j] == a2[j]);
        } else {
            assert((a1 + b1)[j] == b1[j - a1.len()]);
            assert((a2 + b2)[j] == b2[j - a2.len()]);
        }
    }
}

/// Shifting the accumulated transform handed to a subtree shifts every world
/// transform in that subtree's draw list by exactly the same translation.
pub proof fn lemma_node_draws_translated(
    g: SceneGraph, i: int, vp: M4, acc: M4, tx: int, ty: int, tz: int,
)
    requires
        graph_index_wf(g),
        0 <= i < g.nodes@.len(),
        m4_affine(acc),
    ensures
        draws_shifted(
            node_draws(g, i, vp, acc),
            node_draws(g, i, vp, sm_shift(acc, tx, ty, tz)),
            tx, ty, tz,
        ),
    decreases g.nodes@.len() - i, g.nodes@[i].children@.len() + 1,
{
    let n = g.nodes@[i];
    let world1 = sm_mul(acc, sm_local(n));
    let world2 = sm_mul(sm_shift(acc, tx, ty, tz), sm_local(n));
    lemma_local_affine(n);
    lemma_shift_mul(acc, sm_local(n), tx, ty, tz);
    assert(world2 == sm_shift(world1, tx, ty, tz));
    lemma_affine_mul(acc, sm_local(n));
    let own1: Seq<DrawV> = if node_emits(n) {
        seq![DrawV {
            mvp: sm_mul(vp, world1),
            world: world1,
            vao_id: node_vao(n),
            index_count: node_index_count(n),
        }]
    } else {
        Seq::empty()
    };
    let own2: Seq<DrawV> = if node_emits(n) {
        seq![DrawV {
            mvp: sm_mul(vp, world2),
            world: world2,
            vao_id: node_vao(n),
            index_count: node_index_count(n),
        }]
    } else {
        Seq::empty()
    };
    assert(draws_shifted(own1, own2, tx, ty, tz));
    lemma_children_draws_translated(g, i, 0, vp, world1, tx, ty, tz);
    lemma_draws_shifted_concat(
        own1, children_draws(g, i, 0, vp, world1),
        own2, children_draws(g, i, 0, vp, world2),
        tx, ty, tz,
    );
    assert(node_draws(g, i, vp, acc) == own1 + children_draws(g, i, 0, vp, world1));
    assert(node_draws(g, i, vp, sm_shift(acc, tx, ty, tz))
        == own2 + children_draws(g, i, 0, vp, world2));
}

proof fn lemma_children_draws_translated(
    g: SceneGraph, i: int, k: int, vp: M4, world: M4, tx: int, ty: int, tz: int,
)
    requires
        graph_index_wf(g),
        0 <= i < g.nodes@.len(),
        0 <= k <= g.nodes@[i].children@.len(),
        m4_affine(world),
    ensures
        draws_shifted(
            children_draws(g, i, k, vp, world),
            children_draws(g, i, k, vp, sm_shift(world, tx, ty, tz)),
            tx, ty, tz,
        ),
    decreases g.nodes@.len() - i, g.nodes@[i].children@.len() - k,
{
    let world2 = sm_shift(world, tx, ty, tz);
    if k >= g.nodes@[i].children@.len() {
        assert(children_draws(g, i, k, vp, world) =~= Seq::<DrawV>::empty());
        assert(children_draws(g, i, k, vp, world2) =~= Seq::<DrawV>::empty());
    } else {
        let c = g.nodes@[i].children@[k] as int;
        lemma_node_draws_translated(g, c, vp, world, tx, ty, tz);
        lemma_children_draws_translated(g, i, k + 1, vp, world, tx, ty, tz);
        lemma_draws_shifted_concat(
            node_draws(g, c, vp, world), children_draws(g, i, k + 1, vp, world),
            node_draws(g, c, vp, world2), children_draws(g, i, k + 1, vp, world2),
            tx, ty, tz,
        );
    }
}

proof fn lemma_node_draws_same(g1: SceneGraph, g2: SceneGraph, i: int, vp: M4, acc: M4)
    requires
        graph_index_wf(g1),
        graph_index_wf(g2),
        g1.nodes@.len() == g2.nodes@.len(),
        0 <= i < g1.nodes@.len(),
        forall|j: int| i <= j < g1.nodes@.len() ==> g2.nodes@[j] == g1.nodes@[j],
    ensures
        node_draws(g2, i, vp, acc) == node_draws(g1, i, vp, acc),
    decreases g1.nodes@.len() - i, g1.nodes@[i].children@.len() + 1,
{
    assert(g2.nodes@[i] == g1.nodes@[i]);
    let n = g1.nodes@[i];
    let world = sm_mul(acc, sm_local(n));
    lemma_children_draws_same(g1, g2, i, 0, vp, world);
    assert(node_draws(g2, i, vp, acc) =~= node_draws(g1, i, vp, acc));
}

proof fn lemma_children_draws_same(g1: SceneGraph, g2: SceneGraph, i: int, k: int, vp: M4, world: M4)
    requires
        graph_index_wf(g1),
        graph_index_wf(g2),
        g1.nodes@.len() == g2.nodes@.len(),
        0 <= i < g1.nodes@.len(),
        0 <= k <= g1.nodes@[i].children@.len(),
        forall|j: int| i <= j < g1.nodes@.len() ==> g2.nodes@[j] == g1.nodes@[j],
    ensures
        children_draws(g2, i, k, vp, world) == children_draws(g1, i, k, vp, world),
    decreases g1.nodes@.len() - i, g1.nodes@[i].children@.len() - k,
{
    assert(g2.nodes@[i] == g1.nodes@[i]);
    if k >= g1.nodes@[i].children@.len() {
        assert(children_draws(g2, i, k, vp, world) =~= children_draws(g1, i, k, vp, world));
    } else {
        let c = g1.nodes@[i].children@[k] as int;
        assert(i < c < g1.nodes@.len());
        lemma_node_draws_same(g1, g2, c, vp, world);
        lemma_children_draws_same(g1, g2, i, k + 1, vp, world);
        assert(children_draws(g2, i, k, vp, world) =~= children_draws(g1, i, k, vp, world));
    }
}

proof fn lemma_children_translated_cross(
    g1: SceneGraph, g2: SceneGraph, p: int, k: int, vp: M4,
    world1: M4, world2: M4, tx: int, ty: int, tz: int,
)
    requires
        graph_index_wf(g1),
        graph_index_wf(g2),
        g1.nodes@.len() == g2.nodes@.len(),
        0 <= p < g1.nodes@.len(),
        0 <= k <= g1.nodes@[p].children@.len(),
        forall|j: int| 0 <= j < g1.nodes@.len() && j != p ==> g2.nodes@[j] == g1.nodes@[j],
        g2.nodes@[p].children@ == g1.nodes@[p].children@,
        world2 == sm_shift(world1, tx, ty, tz),
        m4_affine(world1),
    ensures
        draws_shifted(
            children_draws(g1, p, k, vp, world1),
            children_draws(g2, p, k, vp, world2),
            tx, ty, tz,
        ),
    decreases g1.nodes@[p].children@.len() - k,
{
    if k >= g1.nodes@[p].children@.len() {
        assert(children_draws(g1, p, k, vp, world1) =~= Seq::<DrawV>::empty());
        assert(children_draws(g2, p, k, vp, world2) =~= Seq::<DrawV>::empty());
    } else {
        let c = g1.nodes@[p].children@[k] as int;
        assert(p < c < g1.nodes@.len());
        lemma_node_draws_translated(g1, c, vp, world1, tx, ty, tz);
        lemma_node_draws_same(g1, g2, c, vp, world2);
        assert(draws_shifted(
            node_draws(g1, c, vp, world1),
            node_draws(g2, c, vp, world2),
            tx, ty, tz,
        ));
        lemma_children_translated_cross(g1, g2, p, k + 1, vp, world1, world2, tx, ty, tz);
        lemma_draws_shifted_concat(
            node_draws(g1, c, vp, world1), children_draws(g1, p, k + 1, vp, world1),
            node_draws(g2, c, vp, world2), children_draws(g2, p, k + 1, vp, world2),
            tx, ty, tz,
        );
    }
}

/// Parent propagation: when one graph is the other with a single node's
/// position moved by `(tx, ty, tz)`, and the transform accumulated above
/// that node is a pure translation, every draw submission in the node's
/// subtree keeps its geometry and its rotation part, and its world position
/// moves by exactly `(tx, ty, tz)`. (Under a rotated ancestor the offset
/// would be the rotated image of the translation, so such accumulated
/// transforms are excluded.)
pub proof fn lemma_parent_translation(
    g1: SceneGraph, g2: SceneGraph, p: int, vp: M4,
    ux: int, uy: int, uz: int, tx: int, ty: int, tz: int,
)
    requires
        graph_index_wf(g1),
        graph_index_wf(g2),
        g1.nodes@.len() == g2.nodes@.len(),
        0 <= p < g1.nodes@.len(),
        forall|j: int| 0 <= j < g1.nodes@.len() && j != p ==> g2.nodes@[j] == g1.nodes@[j],
        g2.nodes@[p].rotation == g1.nodes@[p].rotation,
        g2.nodes@[p].reference_point == g1.nodes@[p].reference_point,
        g2.nodes@[p].drawable == g1.nodes@[p].drawable,
        g2.nodes@[p].children@ == g1.nodes@[p].children@,
        g2.nodes@[p].position.x == g1.nodes@[p].position.x + tx,
        g2.nodes@[p].position.y == g1.nodes@[p].position.y + ty,
        g2.nodes@[p].position.z == g1.nodes@[p].position.z + tz,
    ensures
        draws_shifted(
            node_draws(g1, p, vp, sm_shift(sm_identity(), ux, uy, uz)),
            node_draws(g2, p, vp, sm_shift(sm_identity(), ux, uy, uz)),
            tx, ty, tz,
        ),
{
    let acc = sm_shift(sm_identity(), ux, uy, uz);
    let n1 = g1.nodes@[p];
    let n2 = g2.nodes@[p];
    lemma_local_position_shift(n1, n2, tx, ty, tz);
    lemma_local_affine(n1);
    lemma_local_affine(n2);
    let world1 = sm_mul(acc, sm_local(n1));
    let world2 = sm_mul(acc, sm_local(n2));
    lemma_shift_mul(sm_identity(), sm_local(n1), ux, uy, uz);
    lemma_shift_mul(sm_identity(), sm_local(n2), ux, uy, uz);
    lemma_identity_left(sm_local(n1));
    lemma_identity_left(sm_local(n2));
    assert(world1 == sm_shift(sm_local(n1), ux, uy, uz));
    assert(world2 == sm_shift(sm_local(n2), ux, uy, uz));
    assert(world2 == sm_shift(world1, tx, ty, tz));
    assert(m4_affine(world1));
    let own1: Seq<DrawV> = if node_emits(n1) {
        seq![DrawV {
            mvp: sm_mul(vp, world1),
            world: world1,
            vao_id: node_vao(n1),
            index_count: node_index_count(n1),
        }]
    } else {
        Seq::empty()
    };
    let own2: Seq<DrawV> = if node_emits(n2) {
        seq![DrawV {
            mvp: sm_mul(vp, world2),
            world: world2,
            vao_id: node_vao(n2),
            index_count: node_index_count(n2),
        }]
    } else {
        Seq::empty()
    };
    assert(draws_shifted(own1, own2, tx, ty, tz));
    lemma_children_translated_cross(g1, g2, p, 0, vp, world1, world2, tx, ty, tz);
    lemma_draws_shifted_concat(
        own1, children_draws(g1, p, 0, vp, world1),
        own2, children_draws(g2, p, 0, vp, world2),
        tx, ty, tz,
    );
    assert(node_draws(g1, p, vp, acc) == own1 + children_draws(g1, p, 0, vp, world1));
    assert(node_draws(g2, p, vp, acc) == own2 + children_draws(g2, p, 0, vp, world2));
}

} // verus!
