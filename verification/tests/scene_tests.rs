use scene_graph::app_state::AppState;
use scene_graph::math::mat4::Matrix4;
use scene_graph::math::quaternion::Quaternion;
use scene_graph::math::vec3::Vector3;
use scene_graph::scene::scene_node::Node;

const ONE: i32 = 65536;

fn fresh_state() -> AppState {
    AppState::new(600, 800)
}

#[test]
fn stack_balanced_after_render() {
    // Whatever the tree looks like, rendering returns the stack to the
    // depth (and contents) it had before the call.
    let mut state = fresh_state();
    state.multiply_to_mat_stack(&Matrix4::translate(ONE, 0, 0));
    let baseline = state.peek_mat_stack();
    assert_eq!(state.mat_stack_depth(), 1);

    let mut root = Node::new();
    let mut branch = Node::new();
    let mut leaf = Node::new();
    leaf.add_renderer(3);
    branch.add_child(leaf);
    branch.add_renderer(1);
    root.add_child(branch);
    root.add_child(Node::new());
    root.add_renderer(0);

    root.render(&mut state);

    assert_eq!(state.mat_stack_depth(), 1);
    assert_eq!(state.peek_mat_stack().data, baseline.data);
}

#[test]
fn identity_composition_draw() {
    // A single node at the origin with the identity rotation, rendered over
    // an empty stack, hands its renderable exactly the identity transform.
    let mut state = fresh_state();
    let mut node = Node::new();
    node.add_renderer(7);

    node.render(&mut state);

    let cmds = state.take_draw_queue();
    assert_eq!(cmds.len(), 1);
    assert_eq!(cmds[0].renderer, 7);
    assert_eq!(cmds[0].transform.data, Matrix4::identity().data);
    assert_eq!(state.mat_stack_depth(), 0);
}

#[test]
fn translation_chain_draw() {
    // Root at (1, 0, 0) with a child at local (0, 2, 0): the child's world
    // transform translates by (1, 2, 0).
    let mut state = fresh_state();
    let mut root = Node::new();
    root.position = Vector3::new(ONE, 0, 0);
    let mut child = Node::new();
    child.position = Vector3::new(0, 2 * ONE, 0);
    child.add_renderer(1);
    root.add_child(child);
    root.add_renderer(0);

    root.render(&mut state);

    let cmds = state.take_draw_queue();
    assert_eq!(cmds.len(), 2);
    assert_eq!(cmds[0].renderer, 1);
    assert_eq!(cmds[0].transform.data, Matrix4::translate(ONE, 2 * ONE, 0).data);
    assert_eq!(cmds[1].renderer, 0);
    assert_eq!(cmds[1].transform.data, Matrix4::translate(ONE, 0, 0).data);
}

#[test]
fn sibling_independence_draws() {
    // Two children of one parent: each receives the parent world times its
    // own local transform, and neither sees the other's transform.
    let mut state = fresh_state();
    let mut parent = Node::new();
    parent.position = Vector3::new(0, ONE, 0);
    parent.add_renderer(0);

    let mut first = Node::new();
    first.position = Vector3::new(ONE, 0, 0);
    first.add_renderer(1);

    let mut second = Node::new();
    second.rotation = Quaternion::new(0, 46341, 0, 46341);
    second.add_renderer(2);

    parent.add_child(first);
    parent.add_child(second);
    parent.render(&mut state);

    let cmds = state.take_draw_queue();
    assert_eq!(cmds.len(), 3);
    assert_eq!(cmds[0].renderer, 1);
    assert_eq!(cmds[0].transform.data, [
        ONE, 0, 0, 0,
        0, ONE, 0, 0,
        0, 0, ONE, 0,
        ONE, ONE, 0, ONE,
    ]);
    assert_eq!(cmds[1].renderer, 2);
    assert_eq!(cmds[1].transform.data, [
        0, 0, ONE, 0,
        0, ONE, 0, 0,
        -ONE, 0, 0, 0,
        0, ONE, 0, ONE,
    ]);
    assert_eq!(cmds[2].renderer, 0);
    assert_eq!(cmds[2].transform.data, Matrix4::translate(0, ONE, 0).data);
}

#[test]
fn rotation_composition_order() {
    // A node rotated a quarter turn about y nested under a node rotated a
    // quarter turn about x: the child's world transform is the exact product
    // of the two rotation matrices, child's local first.
    let mut state = fresh_state();
    let mut parent = Node::new();
    parent.rotation = Quaternion::new(46341, 0, 0, 46341);
    let mut child = Node::new();
    child.rotation = Quaternion::new(0, 46341, 0, 46341);
    child.add_renderer(5);
    parent.add_child(child);

    parent.render(&mut state);

    let cmds = state.take_draw_queue();
    assert_eq!(cmds.len(), 1);
    assert_eq!(cmds[0].renderer, 5);
    let expected = [
        0, ONE, 0, 0,
        0, 0, -ONE, 0,
        -ONE, 0, 0, 0,
        0, 0, 0, ONE,
    ];
    assert_eq!(cmds[0].transform.data, expected);
    // The same product computed directly, in the same fixed order.
    let direct = Matrix4::rotate(Quaternion::new(0, 46341, 0, 46341)).mul(&Matrix4::rotate(
        Quaternion::new(46341, 0, 0, 46341),
    ));
    assert_eq!(cmds[0].transform.data, direct.data);
}

#[test]
fn pop_on_empty_stack_is_noop() {
    let mut state = fresh_state();
    state.pop_from_mat_stack();
    assert_eq!(state.mat_stack_depth(), 0);
    assert_eq!(state.peek_mat_stack().data, Matrix4::identity().data);
}

#[test]
fn peek_is_idempotent() {
    let mut state = fresh_state();
    state.multiply_to_mat_stack(&Matrix4::translate(ONE, 2 * ONE, 3 * ONE));
    let first = state.peek_mat_stack();
    let second = state.peek_mat_stack();
    assert_eq!(first.data, second.data);
    assert_eq!(state.mat_stack_depth(), 1);
}

#[test]
fn multiply_to_mat_stack_composes_onto_top() {
    let mut state = fresh_state();
    state.multiply_to_mat_stack(&Matrix4::translate(ONE, 0, 0));
    state.multiply_to_mat_stack(&Matrix4::translate(0, 2 * ONE, 0));
    assert_eq!(state.mat_stack_depth(), 2);
    assert_eq!(state.peek_mat_stack().data, Matrix4::translate(ONE, 2 * ONE, 0).data);
    state.pop_from_mat_stack();
    assert_eq!(state.peek_mat_stack().data, Matrix4::translate(ONE, 0, 0).data);
}

#[test]
fn node_without_renderable_still_balances() {
    // A node with neither children nor a renderable still pushes and pops,
    // and emits nothing.
    let mut state = fresh_state();
    let node = Node::new();
    node.render(&mut state);
    assert_eq!(state.mat_stack_depth(), 0);
    assert_eq!(state.take_draw_queue().len(), 0);
}

#[test]
fn draw_order_is_depth_first_children_before_parent() {
    let mut state = fresh_state();
    let mut root = Node::new();
    root.add_renderer(0);
    let mut first = Node::new();
    first.add_renderer(1);
    let mut grandchild = Node::new();
    grandchild.add_renderer(3);
    first.add_child(grandchild);
    let mut second = Node::new();
    second.add_renderer(2);
    root.add_child(first);
    root.add_child(second);

    root.render(&mut state);

    let cmds = state.take_draw_queue();
    let ids: Vec<usize> = cmds.iter().map(|c| c.renderer).collect();
    assert_eq!(ids, vec![3, 1, 2, 0]);
}

#[test]
fn stored_scale_is_not_applied() {
    // The node's scale field is mutated by hosts but deliberately has no
    // effect on the rendered transform.
    let mut state = fresh_state();
    let mut node = Node::new();
    node.scale = Vector3::new(9 * ONE, 9 * ONE, 9 * ONE);
    node.add_renderer(4);
    node.render(&mut state);
    let cmds = state.take_draw_queue();
    assert_eq!(cmds[0].transform.data, Matrix4::identity().data);
}

#[test]
fn add_renderer_replaces_prior() {
    let mut node = Node::new();
    node.add_renderer(1);
    node.add_renderer(2);
    let mut state = fresh_state();
    node.render(&mut state);
    let cmds = state.take_draw_queue();
    assert_eq!(cmds.len(), 1);
    assert_eq!(cmds[0].renderer, 2);
}
