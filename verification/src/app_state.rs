//! The explicit application context: canvas size, mouse state, camera, the
//! shared matrix stack and the queue of draw commands that a render pass
//! emits. Passing this context around, rather than hiding it in globals,
//! keeps every render pass re-entrant and lets each mutation carry a
//! contract.

use vstd::prelude::*;
use crate::graphics::camera::{Camera, CAMERA_FAR, CAMERA_FOCAL, CAMERA_NEAR};
use crate::math::fx::{FX_ONE, fx_div_spec, fx_div};
use crate::math::mat4::{
    Matrix4, identity_spec, mat_mul_spec, perspective_spec, view_spec,
};
use crate::math::vec2::Vector2;
use crate::math::vec3::{Vector3, vec3_add_spec};

verus! {

/// Pointer position, per-frame deltas and button state.
pub struct MouseState {
    pub x: i32,
    pub y: i32,
    pub delta_x: i32,
    pub delta_y: i32,
    pub down: bool,
    pub drag: bool,
}

impl MouseState {
    /// The initial mouse state: at the origin, at rest, no button held.
    pub fn new() -> (r: Self)
        ensures
            r.x == 0,
            r.y == 0,
            r.delta_x == 0,
            r.delta_y == 0,
            !r.down,
            !r.drag,
    {
        MouseState { x: 0, y: 0, delta_x: 0, delta_y: 0, down: false, drag: false }
    }
}

/// One deferred draw call: which renderable to draw, and the world transform
/// it receives. The host executes the queue after the traversal.
pub struct DrawCmd {
    pub renderer: usize,
    pub transform: Matrix4,
}

impl View for DrawCmd {
    type V = (int, Seq<int>);

    open spec fn view(&self) -> (int, Seq<int>) {
        (self.renderer as int, self.transform@)
    }
}

/// The top of a matrix stack: the last matrix pushed, or the identity when
/// the stack is empty.
pub open spec fn stack_top_spec(s: Seq<Seq<int>>) -> Seq<int> {
    if s.len() == 0 {
        identity_spec()
    } else {
        s.last()
    }
}

/// The whole application context for one scene.
pub struct AppState {
    pub canvas_height: i32,
    pub canvas_width: i32,
    pub mouse: MouseState,
    pub camera: Camera,
    pub mat_stack: Vec<Matrix4>,
    pub draw_queue: Vec<DrawCmd>,
}

impl AppState {
    /// The matrix stack as a sequence of matrix models, bottom first.
    pub open spec fn mats(self) -> Seq<Seq<int>> {
        self.mat_stack@.map_values(|m: Matrix4| m@)
    }

    /// The queued draw commands as pairs of renderable id and world
    /// transform.
    pub open spec fn draws(self) -> Seq<(int, Seq<int>)> {
        self.draw_queue@.map_values(|c: DrawCmd| c@)
    }

    /// Everything but the matrix stack and the draw queue is unchanged.
    pub open spec fn same_but_render_state(self, other: AppState) -> bool {
        &&& self.canvas_height == other.canvas_height
        &&& self.canvas_width == other.canvas_width
        &&& self.mouse == other.mouse
        &&& self.camera == other.camera
    }

    /// A fresh context: given canvas size, initial mouse and camera, an
    /// empty matrix stack and an empty draw queue.
    pub fn new(canvas_height: i32, canvas_width: i32) -> (r: Self)
        ensures
            r.canvas_height == canvas_height,
            r.canvas_width == canvas_width,
            r.mouse == (MouseState { x: 0, y: 0, delta_x: 0, delta_y: 0, down: false, drag: false }),
            r.camera.position@ == seq![0int, 0int, 0int],
            r.camera.focal_scale == CAMERA_FOCAL,
            r.camera.near == CAMERA_NEAR,
            r.camera.far == CAMERA_FAR,
            r.camera.view_matrix@ == identity_spec(),
            r.camera.proj_matrix@ == identity_spec(),
            r.mats() =~= Seq::<Seq<int>>::empty(),
            r.draws() =~= Seq::<(int, Seq<int>)>::empty(),
    {
        AppState {
            canvas_height,
            canvas_width,
            mouse: MouseState::new(),
            camera: Camera::new(),
            mat_stack: Vec::new(),
            draw_queue: Vec::new(),
        }
    }

    /// Record a new canvas size.
    pub fn update_dynamic_data(&mut self, canvas_height: i32, canvas_width: i32)
        ensures
            final(self).canvas_height == canvas_height,
            final(self).canvas_width == canvas_width,
            final(self).mouse == old(self).mouse,
            final(self).camera == old(self).camera,
            final(self).mat_stack == old(self).mat_stack,
            final(self).draw_queue == old(self).draw_queue,
    {
        self.canvas_height = canvas_height;
        self.canvas_width = canvas_width;
    }

    /// The recorded canvas height, in pixels.
    pub fn get_canvas_height(&self) -> (r: i32)
        ensures
            r == self.canvas_height,
    {
        self.canvas_height
    }

    /// The recorded canvas width, in pixels.
    pub fn get_canvas_width(&self) -> (r: i32)
        ensures
            r == self.canvas_width,
    {
        self.canvas_width
    }

    /// Record the pointer position; deltas and button state are kept.
    pub fn set_mouse_pos(&mut self, x: i32, y: i32)
        ensures
            final(self).mouse.x == x,
            final(self).mouse.y == y,
            final(self).mouse.delta_x == old(self).mouse.delta_x,
            final(self).mouse.delta_y == old(self).mouse.delta_y,
            final(self).mouse.down == old(self).mouse.down,
            final(self).mouse.drag == old(self).mouse.drag,
            final(self).canvas_height == old(self).canvas_height,
            final(self).canvas_width == old(self).canvas_width,
            final(self).camera == old(self).camera,
            final(self).mat_stack == old(self).mat_stack,
            final(self).draw_queue == old(self).draw_queue,
    {
        self.mouse.x = x;
        self.mouse.y = y;
    }

    /// The recorded pointer position.
    pub fn get_mouse_pos(&self) -> (r: Vector2)
        ensures
            r@ == seq![self.mouse.x as int, self.mouse.y as int],
    {
        Vector2::new(self.mouse.x, self.mouse.y)
    }

    /// Record the per-frame pointer movement. The movement only registers
    /// while the button is held; otherwise the deltas are zero.
    pub fn update_mouse_delta(&mut self, delta_x: i32, delta_y: i32)
        ensures
            final(self).mouse.delta_x == (if old(self).mouse.down { delta_x } else { 0i32 }),
            final(self).mouse.delta_y == (if old(self).mouse.down { delta_y } else { 0i32 }),
            final(self).mouse.x == old(self).mouse.x,
            final(self).mouse.y == old(self).mouse.y,
            final(self).mouse.down == old(self).mouse.down,
            final(self).mouse.drag == old(self).mouse.drag,
            final(self).canvas_height == old(self).canvas_height,
            final(self).canvas_width == old(self).canvas_width,
            final(self).camera == old(self).camera,
            final(self).mat_stack == old(self).mat_stack,
            final(self).draw_queue == old(self).draw_queue,
    {
        if self.mouse.down {
            self.mouse.delta_x = delta_x;
            self.mouse.delta_y = delta_y;
        } else {
            self.mouse.delta_x = 0;
            self.mouse.delta_y = 0;
        }
    }

    /// The recorded per-frame pointer movement.
    pub fn get_mouse_delta(&self) -> (r: Vector2)
        ensures
            r@ == seq![self.mouse.delta_x as int, self.mouse.delta_y as int],
    {
        Vector2::new(self.mouse.delta_x, self.mouse.delta_y)
    }

    /// Record whether a button is held.
    pub fn set_mouse_down(&mut self, down: bool)
        ensures
            final(self).mouse.down == down,
            final(self).mouse.x == old(self).mouse.x,
            final(self).mouse.y == old(self).mouse.y,
            final(self).mouse.delta_x == old(self).mouse.delta_x,
            final(self).mouse.delta_y == old(self).mouse.delta_y,
            final(self).mouse.drag == old(self).mouse.drag,
            final(self).canvas_height == old(self).canvas_height,
            final(self).canvas_width == old(self).canvas_width,
            final(self).camera == old(self).camera,
            final(self).mat_stack == old(self).mat_stack,
            final(self).draw_queue == old(self).draw_queue,
    {
        self.mouse.down = down;
    }

    /// Record a drag: a drag only holds while the button is held.
    pub fn set_mouse_drag(&mut self, drag: bool)
        ensures
            final(self).mouse.drag == (drag && old(self).mouse.down),
            final(self).mouse.x == old(self).mouse.x,
            final(self).mouse.y == old(self).mouse.y,
            final(self).mouse.delta_x == old(self).mouse.delta_x,
            final(self).mouse.delta_y == old(self).mouse.delta_y,
            final(self).mouse.down == old(self).mouse.down,
            final(self).canvas_height == old(self).canvas_height,
            final(self).canvas_width == old(self).canvas_width,
            final(self).camera == old(self).camera,
            final(self).mat_stack == old(self).mat_stack,
            final(self).draw_queue == old(self).draw_queue,
    {
        self.mouse.drag = drag && self.mouse.down;
    }

    /// Whether the pointer is mid-drag.
    pub fn get_mouse_drag(&self) -> (r: bool)
        ensures
            r == self.mouse.drag,
    {
        self.mouse.drag
    }

    /// The camera's projection matrix.
    pub fn get_projection_matrix(&self) -> (r: Matrix4)
        ensures
            r == self.camera.proj_matrix,
    {
        self.camera.proj_matrix
    }

    /// The camera's view matrix.
    pub fn get_view_matrix(&self) -> (r: Matrix4)
        ensures
            r == self.camera.view_matrix,
    {
        self.camera.view_matrix
    }

    /// Rebuild the projection matrix from the camera parameters and the
    /// canvas aspect ratio.
    pub fn update_projection_matrix(&mut self)
        requires
            old(self).canvas_height != 0,
            fx_div_spec(old(self).canvas_width as int, old(self).canvas_height as int) != 0,
            old(self).camera.near != old(self).camera.far,
        ensures
            final(self).camera.proj_matrix@ == perspective_spec(
                old(self).camera.focal_scale as int,
                fx_div_spec(old(self).canvas_width as int, old(self).canvas_height as int),
                old(self).camera.near as int,
                old(self).camera.far as int,
            ),
            final(self).camera.position == old(self).camera.position,
            final(self).camera.focal_scale == old(self).camera.focal_scale,
            final(self).camera.near == old(self).camera.near,
            final(self).camera.far == old(self).camera.far,
            final(self).camera.view_matrix == old(self).camera.view_matrix,
            final(self).canvas_height == old(self).canvas_height,
            final(self).canvas_width == old(self).canvas_width,
            final(self).mouse == old(self).mouse,
            final(self).mat_stack == old(self).mat_stack,
            final(self).draw_queue == old(self).draw_queue,
    {
        let aspect_ratio = fx_div(self.canvas_width, self.canvas_height);
        let proj_mat = Matrix4::perspective(
            self.camera.focal_scale,
            aspect_ratio,
            self.camera.near,
            self.camera.far,
        );
        self.camera.proj_matrix = proj_mat;
    }

    /// Rebuild the view matrix from the camera position and the absolute up
    /// and forward directions.
    pub fn update_view_matrix(&mut self)
        ensures
            final(self).camera.view_matrix@ == view_spec(
                old(self).camera.position@,
                seq![0int, FX_ONE as int, 0int],
                seq![0int, 0int, FX_ONE as int],
            ),
            final(self).camera.position == old(self).camera.position,
            final(self).camera.focal_scale == old(self).camera.focal_scale,
            final(self).camera.near == old(self).camera.near,
            final(self).camera.far == old(self).camera.far,
            final(self).camera.proj_matrix == old(self).camera.proj_matrix,
            final(self).canvas_height == old(self).canvas_height,
            final(self).canvas_width == old(self).canvas_width,
            final(self).mouse == old(self).mouse,
            final(self).mat_stack == old(self).mat_stack,
            final(self).draw_queue == old(self).draw_queue,
    {
        let view_mat = Matrix4::view(self.camera.position, Vector3::up(), Vector3::forward());
        self.camera.view_matrix = view_mat;
    }

    /// Place the camera.
    pub fn set_camera_position(&mut self, pos: Vector3)
        ensures
            final(self).camera.position == pos,
            final(self).camera.focal_scale == old(self).camera.focal_scale,
            final(self).camera.near == old(self).camera.near,
            final(self).camera.far == old(self).camera.far,
            final(self).camera.view_matrix == old(self).camera.view_matrix,
            final(self).camera.proj_matrix == old(self).camera.proj_matrix,
            final(self).canvas_height == old(self).canvas_height,
            final(self).canvas_width == old(self).canvas_width,
            final(self).mouse == old(self).mouse,
            final(self).mat_stack == old(self).mat_stack,
            final(self).draw_queue == old(self).draw_queue,
    {
        self.camera.position = pos;
    }

    /// Move the camera by a delta, saturating componentwise.
    pub fn move_camera(&mut self, delta: Vector3)
        ensures
            final(self).camera.position@ == vec3_add_spec(old(self).camera.position@, delta@),
            final(self).camera.focal_scale == old(self).camera.focal_scale,
            final(self).camera.near == old(self).camera.near,
            final(self).camera.far == old(self).camera.far,
            final(self).camera.view_matrix == old(self).camera.view_matrix,
            final(self).camera.proj_matrix == old(self).camera.proj_matrix,
            final(self).canvas_height == old(self).canvas_height,
            final(self).canvas_width == old(self).canvas_width,
            final(self).mouse == old(self).mouse,
            final(self).mat_stack == old(self).mat_stack,
            final(self).draw_queue == old(self).draw_queue,
    {
        let moved = self.camera.position.add(&delta);
        self.camera.position = moved;
    }

    /// Compose a matrix onto the stack: the new top is the given matrix
    /// times the previous top (the identity when the stack was empty), and
    /// the depth grows by exactly one.
    pub fn multiply_to_mat_stack(&mut self, mat: &Matrix4)
        ensures
            final(self).mats() == old(self).mats().push(
                mat_mul_spec(mat@, stack_top_spec(old(self).mats())),
            ),
            final(self).same_but_render_state(*old(self)),
            final(self).draw_queue == old(self).draw_queue,
    {
        let top = self.peek_mat_stack();
        let composed = mat.mul(&top);
        self.mat_stack.push(composed);
        proof {
            assert(self.mats() =~= old(self).mats().push(
                mat_mul_spec(mat@, stack_top_spec(old(self).mats())),
            ));
        }
    }

    /// Remove the top of the stack; popping an empty stack is a no-op, not
    /// an error.
    pub fn pop_from_mat_stack(&mut self)
        ensures
            final(self).mats() == (if old(self).mats().len() == 0 {
                old(self).mats()
            } else {
                old(self).mats().drop_last()
            }),
            final(self).same_but_render_state(*old(self)),
            final(self).draw_queue == old(self).draw_queue,
    {
        if self.mat_stack.len() > 0 {
            self.mat_stack.pop();
            proof {
                assert(self.mats() =~= old(self).mats().drop_last());
            }
        } else {
            proof {
                assert(self.mats() =~= old(self).mats());
            }
        }
    }

    /// A copy of the current top of the stack, or the identity when the
    /// stack is empty; the stack itself is untouched.
    pub fn peek_mat_stack(&self) -> (r: Matrix4)
        ensures
            r@ == stack_top_spec(self.mats()),
    {
        if self.mat_stack.len() > 0 {
            self.mat_stack[self.mat_stack.len() - 1]
        } else {
            Matrix4::identity()
        }
    }

    /// The current depth of the matrix stack.
    pub fn mat_stack_depth(&self) -> (r: usize)
        ensures
            r == self.mats().len(),
    {
        self.mat_stack.len()
    }

    /// Hand the queued draw commands to the host and leave the queue empty.
    pub fn take_draw_queue(&mut self) -> (r: Vec<DrawCmd>)
        ensures
            r@ == old(self).draw_queue@,
            final(self).draws() =~= Seq::<(int, Seq<int>)>::empty(),
            final(self).same_but_render_state(*old(self)),
            final(self).mat_stack == old(self).mat_stack,
    {
        let mut q: Vec<DrawCmd> = Vec::new();
        core::mem::swap(&mut q, &mut self.draw_queue);
        q
    }
}

} // verus!
