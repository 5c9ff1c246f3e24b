//! The scene tree and its render traversal.

pub mod scene_node;
