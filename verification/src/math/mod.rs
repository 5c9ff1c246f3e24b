//! Fixed-point linear algebra: scalars, vectors, quaternions and 4x4 matrices.

pub mod fx;
pub mod mat4;
pub mod quaternion;
pub mod vec2;
pub mod vec3;
pub mod vec4;
