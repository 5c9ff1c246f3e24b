//! A scene-graph rendering core: fixed-point linear algebra, a matrix stack,
//! and a recursive node traversal that emits draw commands.
//!
//! All geometry is carried in 16.16 fixed-point scalars (an `i32` holding the
//! real value times 65536), so every composition step has an exact, stated
//! meaning. Trigonometry, shader plumbing and the GL calls themselves live
//! with the host application; this crate owns the transform composition, the
//! stack discipline and the traversal order.

pub mod app_state;
pub mod graphics;
pub mod math;
pub mod scene;
