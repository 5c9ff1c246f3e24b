//! The camera: a position, fixed projection parameters and the matrices
//! derived from them. The focal scale stands in for the field of view, since
//! turning an angle into it takes trigonometry, which stays with the host.

use vstd::prelude::*;
use crate::math::mat4::{Matrix4, identity_spec};
use crate::math::vec3::Vector3;

verus! {

/// The default near plane distance, one hundredth in 16.16 fixed point.
pub const CAMERA_NEAR: i32 = 655;

/// The default far plane distance, one thousand in 16.16 fixed point.
pub const CAMERA_FAR: i32 = 65536000;

/// The default focal scale: the reciprocal tangent of half the default view
/// angle of a quarter radian, in 16.16 fixed point.
pub const CAMERA_FOCAL: i32 = 521554;

/// The camera: a position, the fixed projection parameters and the two
/// matrices derived from them.
pub struct Camera {
    pub position: Vector3,
    pub focal_scale: i32,
    pub near: i32,
    pub far: i32,
    pub view_matrix: Matrix4,
    pub proj_matrix: Matrix4,
}

impl Camera {
    /// A camera at the origin with the default projection parameters and
    /// identity matrices.
    pub fn new() -> (r: Self)
        ensures
            r.position@ == seq![0int, 0int, 0int],
            r.focal_scale == CAMERA_FOCAL,
            r.near == CAMERA_NEAR,
            r.far == CAMERA_FAR,
            r.view_matrix@ == identity_spec(),
            r.proj_matrix@ == identity_spec(),
    {
        Camera {
            position: Vector3::zero(),
            focal_scale: CAMERA_FOCAL,
            near: CAMERA_NEAR,
            far: CAMERA_FAR,
            view_matrix: Matrix4::identity(),
            proj_matrix: Matrix4::identity(),
        }
    }
}

} // verus!
