//! Core of a scene-graph renderer: fixed-point transform algebra, a tree of
//! scene nodes with pivot-aware local transforms, a recursive traversal that
//! produces draw submissions, per-frame camera and animation state machines,
//! and the shared cells exchanged between the input task and the render task.

pub mod math;
pub mod scene;
pub mod render;
pub mod input;
pub mod camera;
pub mod animation;
pub mod frame;
