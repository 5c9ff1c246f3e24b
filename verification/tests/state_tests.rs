use scene_graph::app_state::AppState;
use scene_graph::graphics::camera::{CAMERA_FAR, CAMERA_FOCAL, CAMERA_NEAR};
use scene_graph::math::mat4::Matrix4;
use scene_graph::math::vec2::Vector2;
use scene_graph::math::vec3::Vector3;
use scene_graph::math::vec4::Vector4;

const ONE: i32 = 65536;

#[test]
fn canvas_dimensions_update() {
    let mut state = AppState::new(600, 800);
    assert_eq!(state.get_canvas_height(), 600);
    assert_eq!(state.get_canvas_width(), 800);
    state.update_dynamic_data(1080, 1920);
    assert_eq!(state.get_canvas_height(), 1080);
    assert_eq!(state.get_canvas_width(), 1920);
}

#[test]
fn mouse_position_roundtrip() {
    let mut state = AppState::new(600, 800);
    state.set_mouse_pos(11, -7);
    let pos = state.get_mouse_pos();
    assert_eq!(pos.data, [11, -7]);
}

#[test]
fn mouse_delta_only_registers_while_down() {
    let mut state = AppState::new(600, 800);
    state.update_mouse_delta(5, 6);
    assert_eq!(state.get_mouse_delta().data, [0, 0]);
    state.set_mouse_down(true);
    state.update_mouse_delta(5, 6);
    assert_eq!(state.get_mouse_delta().data, [5, 6]);
}

#[test]
fn mouse_drag_needs_button_down() {
    let mut state = AppState::new(600, 800);
    state.set_mouse_drag(true);
    assert!(!state.get_mouse_drag());
    state.set_mouse_down(true);
    state.set_mouse_drag(true);
    assert!(state.get_mouse_drag());
    state.set_mouse_drag(false);
    assert!(!state.get_mouse_drag());
}

#[test]
fn camera_defaults() {
    let state = AppState::new(600, 800);
    assert_eq!(state.camera.position.data, [0, 0, 0]);
    assert_eq!(state.camera.focal_scale, CAMERA_FOCAL);
    assert_eq!(state.camera.near, CAMERA_NEAR);
    assert_eq!(state.camera.far, CAMERA_FAR);
    assert_eq!(state.get_view_matrix().data, Matrix4::identity().data);
    assert_eq!(state.get_projection_matrix().data, Matrix4::identity().data);
}

#[test]
fn camera_moves_by_delta() {
    let mut state = AppState::new(600, 800);
    state.set_camera_position(Vector3::new(0, 0, 15 * ONE));
    state.move_camera(Vector3::new(ONE, 0, -5 * ONE));
    assert_eq!(state.camera.position.data, [ONE, 0, 10 * ONE]);
}

#[test]
fn view_matrix_follows_camera() {
    let mut state = AppState::new(600, 800);
    state.set_camera_position(Vector3::new(0, 0, 15 * ONE));
    state.update_view_matrix();
    let expected = [
        ONE, 0, 0, 0,
        0, ONE, 0, 0,
        0, 0, ONE, 0,
        0, 0, -15 * ONE, ONE,
    ];
    assert_eq!(state.get_view_matrix().data, expected);
}

#[test]
fn projection_matrix_from_canvas_aspect() {
    let mut state = AppState::new(600, 800);
    state.update_projection_matrix();
    let expected = [
        391166, 0, 0, 0,
        0, 521554, 0, 0,
        0, 0, -65001, -ONE,
        0, 0, -1300, 0,
    ];
    assert_eq!(state.get_projection_matrix().data, expected);
}

#[test]
fn take_draw_queue_leaves_it_empty() {
    let mut state = AppState::new(600, 800);
    let mut node = scene_graph::scene::scene_node::Node::new();
    node.add_renderer(9);
    node.render(&mut state);
    let cmds = state.take_draw_queue();
    assert_eq!(cmds.len(), 1);
    let again = state.take_draw_queue();
    assert_eq!(again.len(), 0);
}

#[test]
fn vec3_dot_and_cross() {
    let a = Vector3::new(ONE, 2 * ONE, 3 * ONE);
    let b = Vector3::new(4 * ONE, 5 * ONE, 6 * ONE);
    assert_eq!(Vector3::dot(a, b), 32 * ONE);
    let c = Vector3::cross(Vector3::right(), Vector3::up());
    assert_eq!(c.data, [0, 0, ONE]);
    let d = Vector3::cross(Vector3::up(), Vector3::forward());
    assert_eq!(d.data, [ONE, 0, 0]);
}

#[test]
fn vec3_magnitude_and_normalize() {
    let v = Vector3::new(3 * ONE, 4 * ONE, 0);
    assert_eq!(v.magnitude(), 5 * ONE);
    assert_eq!(v.sqr_magnitude(), 25 * ONE);
    let n = v.normalize();
    assert_eq!(n.data, [39321, 52428, 0]);
    let z = Vector3::zero().normalize();
    assert_eq!(z.data, [0, 0, 0]);
}

#[test]
fn vec3_componentwise_ops() {
    let a = Vector3::new(ONE, -2 * ONE, 3 * ONE);
    let b = Vector3::new(ONE, ONE, ONE);
    assert_eq!(a.add(&b).data, [2 * ONE, -ONE, 4 * ONE]);
    assert_eq!(a.sub(&b).data, [0, -3 * ONE, 2 * ONE]);
    assert_eq!(a.neg().data, [-ONE, 2 * ONE, -3 * ONE]);
    assert_eq!(a.scale(2 * ONE).data, [2 * ONE, -4 * ONE, 6 * ONE]);
    assert_eq!(Vector3::default().data, [0, 0, 0]);
}

#[test]
fn vec2_ops() {
    let a = Vector2::new(3 * ONE, 4 * ONE);
    let b = Vector2::new(ONE, 2 * ONE);
    assert_eq!(Vector2::dot(a, b), 11 * ONE);
    assert_eq!(a.magnitude(), 5 * ONE);
    assert_eq!(a.sqr_magnitude(), 25 * ONE);
    assert_eq!(a.add(&b).data, [4 * ONE, 6 * ONE]);
    assert_eq!(a.sub(&b).data, [2 * ONE, 2 * ONE]);
    assert_eq!(a.neg().data, [-3 * ONE, -4 * ONE]);
    assert_eq!(a.scale(ONE / 2).data, [3 * ONE / 2, 2 * ONE]);
    assert_eq!(Vector2::up().data, [0, ONE]);
    assert_eq!(Vector2::right().data, [ONE, 0]);
    assert_eq!(Vector2::zero().data, [0, 0]);
}

#[test]
fn vec4_ops() {
    let a = Vector4::new(ONE, 2 * ONE, 2 * ONE, 0);
    assert_eq!(a.magnitude(), 3 * ONE);
    assert_eq!(a.sqr_magnitude(), 9 * ONE);
    assert_eq!(Vector4::zero_point().data, [0, 0, 0, ONE]);
    assert_eq!(Vector4::forward().data, [0, 0, ONE, 0]);
    assert_eq!(Vector4::right().data, [ONE, 0, 0, 0]);
    assert_eq!(Vector4::up().data, [0, ONE, 0, 0]);
    assert_eq!(Vector4::zero().data, [0, 0, 0, 0]);
    let b = Vector4::new(ONE, ONE, ONE, ONE);
    assert_eq!(a.add(&b).data, [2 * ONE, 3 * ONE, 3 * ONE, ONE]);
    assert_eq!(a.sub(&b).data, [0, ONE, ONE, -ONE]);
    assert_eq!(a.neg().data, [-ONE, -2 * ONE, -2 * ONE, 0]);
    assert_eq!(a.scale(2 * ONE).data, [2 * ONE, 4 * ONE, 4 * ONE, 0]);
}

#[test]
fn vec4_magnitude_extreme_corner() {
    // Every component at the most negative scalar: the squared length is one
    // past the widest square-root argument, and the magnitude saturates.
    let v = Vector4::new(i32::MIN, i32::MIN, i32::MIN, i32::MIN);
    assert_eq!(v.magnitude(), i32::MAX);
}
