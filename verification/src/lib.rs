//! A 3d rendering canvas core.
//!
//! The canvas batches draw calls, deduplicates render pipelines keyed by
//! shader identity, gathers one instance record per queued draw, maintains
//! the per-frame camera uniform, and plans a single render pass per frame.
//! GPU objects themselves — buffers, pipelines, bind groups — are created
//! and encoded by an unverified driver around this crate; the canvas tracks
//! them by handle and tells the driver exactly what to build and bind.

pub mod camera;
pub mod canvas3d;
pub mod mesh;
pub mod pipeline;
pub mod ratio;
pub mod shader;
pub mod types;

pub use camera::{Camera3d, CameraUniform, CameraView, Projection};
pub use canvas3d::{Canvas3d, DrawCommand3d, DrawStep, FramePlan, RenderError};
pub use mesh::{Aabb, DrawParam3d, Instance3d, Mesh3d, Transform3d};
pub use shader::{DrawState3d, Shader};
pub use types::{
    AddressMode, Color, FilterMode, GraphicsInfo, ImageFormat, ImageInfo, QuatData, Sampler,
    Vec3Data,
};
