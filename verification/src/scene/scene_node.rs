//! Scene nodes: a tree of local transforms, each node optionally carrying a
//! renderable, rendered by a depth-first traversal over a shared matrix
//! stack.
//!
//! Rendering a node pushes its local matrix composed onto the stack top,
//! renders the children in order, queues a draw command carrying the stack
//! top for the node's own renderable, and pops — so the stack always returns
//! to the state it had before the call, and every renderable receives the
//! product of all its ancestors' local transforms.

use vstd::prelude::*;
use crate::app_state::{AppState, DrawCmd, stack_top_spec};
use crate::math::fx::{FX_ONE, fx_mul_spec, fx_sat, lemma_scaled_div};
use crate::math::mat4::{
    Matrix4, identity_spec, lemma_identity_left, lemma_identity_right, mat_mul_spec, mat_wf,
    rotate_spec, scale_spec, translate_spec,
};
use crate::math::quaternion::{Quaternion, quat_identity_spec};
use crate::math::vec3::Vector3;

verus! {

broadcast use vstd::std_specs::vec::group_vec_axioms;

/// A node of the scene tree: a local transform, an optional renderable
/// (an opaque id the host resolves to a mesh and material), and the owned,
/// ordered children.
pub struct Node {
    pub renderer: Option<usize>,
    pub children: Vec<Node>,
    pub position: Vector3,
    pub rotation: Quaternion,
    pub scale: Vector3,
}

/// A node's local matrix: unit scale, then rotation, then translation, in
/// this fixed order. The stored scale is deliberately not applied; the
/// render path always uses a uniform scale of one.
pub open spec fn local_matrix_spec(n: Node) -> Seq<int> {
    mat_mul_spec(
        mat_mul_spec(scale_spec(65536, 65536, 65536), rotate_spec(n.rotation@)),
        translate_spec(n.position@[0], n.position@[1], n.position@[2]),
    )
}

/// The draw command a node queues for its own renderable, given the node's
/// world transform: exactly one command carrying that transform, or nothing.
pub open spec fn own_draw(n: Node, w: Seq<int>) -> Seq<(int, Seq<int>)> {
    match n.renderer {
        Some(id) => seq![(id as int, w)],
        None => Seq::<(int, Seq<int>)>::empty(),
    }
}

/// The draw commands a whole subtree emits, rendered against the world
/// transform `w` accumulated below the node: the node's local matrix is
/// composed onto `w`, the children contribute in order, and the node's own
/// draw command comes last.
pub open spec fn draws_of(n: Node, w: Seq<int>) -> Seq<(int, Seq<int>)>
    decreases n, n.children@.len() + 1,
{
    let wl = mat_mul_spec(local_matrix_spec(n), w);
    draws_of_children(n, wl, n.children@.len() as int) + own_draw(n, wl)
}

/// The draw commands of the first `i` children of `n`, in order, each
/// rendered against the same world transform `w`.
pub open spec fn draws_of_children(n: Node, w: Seq<int>, i: int) -> Seq<(int, Seq<int>)>
    decreases n, i,
{
    if 0 < i <= n.children@.len() {
        draws_of_children(n, w, i - 1) + draws_of(n.children@[i - 1], w)
    } else {
        Seq::<(int, Seq<int>)>::empty()
    }
}

impl Node {
    /// A fresh leaf node: no renderable, no children, at the origin with the
    /// identity rotation and zero scale.
    pub fn new() -> (r: Self)
        ensures
            r.renderer.is_none(),
            r.children@.len() == 0,
            r.position@ == seq![0int, 0int, 0int],
            r.rotation@ == quat_identity_spec(),
            r.scale@ == seq![0int, 0int, 0int],
    {
        Node {
            renderer: None,
            children: Vec::new(),
            position: Vector3::zero(),
            rotation: Quaternion::identity(),
            scale: Vector3::zero(),
        }
    }

    /// Attach a renderable, replacing any prior one.
    pub fn add_renderer(&mut self, renderer: usize)
        ensures
            final(self).renderer == Some(renderer),
            final(self).children == old(self).children,
            final(self).position == old(self).position,
            final(self).rotation == old(self).rotation,
            final(self).scale == old(self).scale,
    {
        self.renderer = Some(renderer);
    }

    /// Take ownership of a child, appending it to the child list.
    pub fn add_child(&mut self, child: Node)
        ensures
            final(self).children@ == old(self).children@.push(child),
            final(self).renderer == old(self).renderer,
            final(self).position == old(self).position,
            final(self).rotation == old(self).rotation,
            final(self).scale == old(self).scale,
    {
        self.children.push(child);
    }

    /// Render the subtree rooted here: push the local matrix onto the
    /// context's matrix stack, render each child in order, queue a draw
    /// command carrying the stack top for this node's renderable, and pop.
    ///
    /// The matrix stack always comes back exactly as it was, whatever the
    /// tree looks like; the draw queue grows by precisely the commands
    /// `draws_of` describes; nothing else in the context changes.
    pub fn render(&self, ctx: &mut AppState)
        ensures
            final(ctx).mats() == old(ctx).mats(),
            final(ctx).draws() == old(ctx).draws() + draws_of(
                *self,
                stack_top_spec(old(ctx).mats()),
            ),
            final(ctx).same_but_render_state(*old(ctx)),
        decreases *self,
    {
        let ghost w0 = stack_top_spec(old(ctx).mats());
        let ghost wl = mat_mul_spec(local_matrix_spec(*self), w0);

        let transform = Matrix4::scale_uniform(FX_ONE).mul(&Matrix4::rotate(self.rotation)).mul(
            &Matrix4::translate(self.position.data[0], self.position.data[1], self.position.data[2]),
        );
        assert(transform@ == local_matrix_spec(*self));
        ctx.multiply_to_mat_stack(&transform);

        let mut i: usize = 0;
        while i < self.children.len()
            invariant
                i <= self.children@.len(),
                ctx.mats() == old(ctx).mats().push(wl),
                ctx.draws() == old(ctx).draws() + draws_of_children(*self, wl, i as int),
                ctx.same_but_render_state(*old(ctx)),
            decreases self.children@.len() - i,
        {
            let ghost pre = ctx.draws();
            self.children[i].render(ctx);
            proof {
                assert(stack_top_spec(old(ctx).mats().push(wl)) == wl);
                assert(ctx.draws() =~= old(ctx).draws() + draws_of_children(
                    *self,
                    wl,
                    i + 1,
                ));
            }
            i = i + 1;
        }

        match self.renderer {
            Some(id) => {
                let world = ctx.peek_mat_stack();
                proof {
                    assert(world@ == wl);
                }
                let ghost pre = ctx.draws();
                ctx.draw_queue.push(DrawCmd { renderer: id, transform: world });
                proof {
                    assert(ctx.draws() =~= pre.push((id as int, wl)));
                    assert(own_draw(*self, wl) == seq![(id as int, wl)]);
                    assert(ctx.draws() =~= old(ctx).draws() + (draws_of_children(
                        *self,
                        wl,
                        self.children@.len() as int,
                    ) + own_draw(*self, wl)));
                }
            },
            None => {
                proof {
                    assert(draws_of_children(*self, wl, self.children@.len() as int)
                        + own_draw(*self, wl) =~= draws_of_children(
                        *self,
                        wl,
                        self.children@.len() as int,
                    ));
                }
            },
        }

        ctx.pop_from_mat_stack();
        proof {
            assert(old(ctx).mats().push(wl).drop_last() =~= old(ctx).mats());
        }
    }
}

/// Law (sibling independence): the draw commands of the first `i + 1`
/// children of a node are those of the first `i` children followed by those
/// of child `i` alone, rendered against the shared parent world transform —
/// so no sibling's transform can leak into another's commands.
pub proof fn lemma_sibling_independence(n: Node, w: Seq<int>, i: int)
    requires
        0 <= i < n.children@.len(),
    ensures
        draws_of_children(n, w, i + 1) == draws_of_children(n, w, i) + draws_of(
            n.children@[i],
            w,
        ),
{
}

/// Law: a node with a renderable queues exactly one draw command for itself,
/// as the last command of its subtree, and the transform that command
/// carries is exactly the node's own local matrix composed onto the world
/// transform accumulated below it.
pub proof fn lemma_own_world_transform(n: Node, w: Seq<int>, id: usize)
    requires
        n.renderer == Some(id),
    ensures
        draws_of(n, w).len() > 0,
        draws_of(n, w).last() == (id as int, mat_mul_spec(local_matrix_spec(n), w)),
{
    let wl = mat_mul_spec(local_matrix_spec(n), w);
    assert(own_draw(n, wl) == seq![(id as int, wl)]);
    let children = draws_of_children(n, wl, n.children@.len() as int);
    assert((children + seq![(id as int, wl)]).last() == (id as int, wl));
}

/// Law (composition order): a renderable child nested under a parent
/// receives its own local matrix composed onto the parent's world transform
/// — rotate-then-translate within each node, parent before child overall —
/// whatever else hangs off the parent.
pub proof fn lemma_nested_composition(p: Node, w: Seq<int>, i: int, id: usize)
    requires
        0 <= i < p.children@.len(),
        p.children@[i].renderer == Some(id),
    ensures
        draws_of(p.children@[i], mat_mul_spec(local_matrix_spec(p), w)).last() == (
            id as int,
            mat_mul_spec(
                local_matrix_spec(p.children@[i]),
                mat_mul_spec(local_matrix_spec(p), w),
            ),
        ),
{
    lemma_own_world_transform(p.children@[i], mat_mul_spec(local_matrix_spec(p), w), id);
}

/// Law: a node with the identity rotation has a pure translation by its own
/// position as its local matrix — unit scale and the identity rotation drop
/// out of the composition.
pub proof fn lemma_translation_local(n: Node)
    requires
        n.rotation@ == quat_identity_spec(),
    ensures
        local_matrix_spec(n) == translate_spec(n.position@[0], n.position@[1], n.position@[2]),
{
    lemma_scaled_div(65536);
    lemma_scaled_div(0);
    assert(scale_spec(65536, 65536, 65536) =~= identity_spec());
    lemma_rotate_identity(n.rotation@);
    assert(mat_wf(identity_spec()));
    lemma_identity_left(identity_spec());
    let t = translate_spec(n.position@[0], n.position@[1], n.position@[2]);
    assert(-0x80000000 <= n.position@[0] <= 0x7fffffff);
    assert(-0x80000000 <= n.position@[1] <= 0x7fffffff);
    assert(-0x80000000 <= n.position@[2] <= 0x7fffffff);
    assert(mat_wf(t));
    lemma_identity_left(t);
}

/// Law (translation chains): under a parent with the identity rotation, a
/// child with the identity rotation is rendered with a world transform that
/// translates by the (saturating) sum of the two offsets — ancestor
/// translation composes additively along pure-translation chains.
pub proof fn lemma_translation_chain(p: Node, c: Node)
    requires
        p.rotation@ == quat_identity_spec(),
        c.rotation@ == quat_identity_spec(),
    ensures
        mat_mul_spec(local_matrix_spec(c), mat_mul_spec(local_matrix_spec(p), identity_spec()))
            == translate_spec(
            fx_sat(c.position@[0] + p.position@[0]),
            fx_sat(c.position@[1] + p.position@[1]),
            fx_sat(c.position@[2] + p.position@[2]),
        ),
{
    lemma_translation_local(p);
    lemma_translation_local(c);
    let tp = translate_spec(p.position@[0], p.position@[1], p.position@[2]);
    assert(-0x80000000 <= p.position@[0] <= 0x7fffffff);
    assert(-0x80000000 <= p.position@[1] <= 0x7fffffff);
    assert(-0x80000000 <= p.position@[2] <= 0x7fffffff);
    assert(mat_wf(tp));
    lemma_identity_right(tp);
    crate::math::mat4::lemma_translate_compose(
        c.position@[0],
        c.position@[1],
        c.position@[2],
        p.position@[0],
        p.position@[1],
        p.position@[2],
    );
}

/// The rotation matrix of the identity quaternion is the identity matrix.
proof fn lemma_rotate_identity(q: Seq<int>)
    requires
        q == quat_identity_spec(),
    ensures
        rotate_spec(q) == identity_spec(),
{
    lemma_scaled_div(65536);
    lemma_scaled_div(0);
    let r = rotate_spec(q);
    assert(fx_mul_spec(65536, 65536) == 65536);
    assert(fx_mul_spec(0, 0) == 0);
    assert(fx_mul_spec(65536, 0) == 0);
    assert(fx_mul_spec(0, 65536) == 0);
    assert(r[0] == 65536int);
    assert(r[1] == 0int);
    assert(r[2] == 0int);
    assert(r[3] == 0int);
    assert(r[4] == 0int);
    assert(r[5] == 65536int);
    assert(r[6] == 0int);
    assert(r[7] == 0int);
    assert(r[8] == 0int);
    assert(r[9] == 0int);
    assert(r[10] == 65536int);
    assert(r[11] == 0int);
    assert(r[12] == 0int);
    assert(r[13] == 0int);
    assert(r[14] == 0int);
    assert(r[15] == 65536int);
    assert(r =~= identity_spec());
}

/// Law: a node at the origin with the identity rotation has the identity
/// local matrix — unit scale, identity rotation and zero translation leave
/// every ancestor transform untouched.
pub proof fn lemma_identity_local(n: Node)
    requires
        n.position@ == seq![0int, 0int, 0int],
        n.rotation@ == quat_identity_spec(),
    ensures
        local_matrix_spec(n) == identity_spec(),
{
    lemma_translation_local(n);
    assert(translate_spec(0, 0, 0) =~= identity_spec());
}

/// Law (identity composition): a childless node at the origin with the
/// identity rotation and a renderable, rendered over a stack whose top is
/// the identity, queues exactly one draw command, and the world transform it
/// carries is the identity matrix.
#[verifier::rlimit(50)]
pub proof fn lemma_identity_composition(n: Node, id: usize)
    requires
        n.renderer == Some(id),
        n.children@.len() == 0,
        n.position@ == seq![0int, 0int, 0int],
        n.rotation@ == quat_identity_spec(),
    ensures
        draws_of(n, identity_spec()) == seq![(id as int, identity_spec())],
{
    lemma_identity_local(n);
    assert(mat_wf(identity_spec()));
    lemma_identity_left(identity_spec());
    let wl = mat_mul_spec(local_matrix_spec(n), identity_spec());
    assert(wl == identity_spec());
    assert(draws_of_children(n, wl, 0) == Seq::<(int, Seq<int>)>::empty());
    assert(draws_of(n, identity_spec()) =~= seq![(id as int, identity_spec())]);
}

} // verus!
