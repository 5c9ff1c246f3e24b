//! Camera state for the render pipeline.

pub mod camera;
