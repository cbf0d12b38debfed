//! Plain-value models of the graphics primitives the canvas stores and
//! forwards but never interprets numerically.
//!
//! Real-number quantities (positions, rotations, colors) are carried as
//! 32-bit words holding IEEE-754 bit patterns. The canvas only moves these
//! values around; all arithmetic on them happens outside this crate, in the
//! driver that expands them for the GPU.

use vstd::prelude::*;

verus! {

/// Three components stored as 32-bit words (IEEE-754 bit patterns).
#[derive(Clone, Copy, PartialEq, Eq, Debug)]
pub struct Vec3Data {
    pub x: u32,
    pub y: u32,
    pub z: u32,
}

impl Vec3Data {
    /// The origin; the bit pattern of 0.0 is 0.
    pub fn zero() -> (v: Vec3Data)
        ensures
            v == (Vec3Data { x: 0, y: 0, z: 0 }),
    {
        Vec3Data { x: 0, y: 0, z: 0 }
    }
}

/// A rotation quaternion, components as 32-bit words.
#[derive(Clone, Copy, PartialEq, Eq, Debug)]
pub struct QuatData {
    pub x: u32,
    pub y: u32,
    pub z: u32,
    pub w: u32,
}

/// An RGBA color, components as 32-bit words.
#[derive(Clone, Copy, PartialEq, Eq, Debug)]
pub struct Color {
    pub r: u32,
    pub g: u32,
    pub b: u32,
    pub a: u32,
}

/// How a sampler treats texture coordinates outside the unit square.
#[derive(Clone, Copy, PartialEq, Eq, Debug)]
pub enum AddressMode {
    ClampToEdge,
    Repeat,
    MirrorRepeat,
}

/// How a sampler filters between texels.
#[derive(Clone, Copy, PartialEq, Eq, Debug)]
pub enum FilterMode {
    Nearest,
    Linear,
}

/// Sampler settings used when a mesh's texture bind group is generated.
#[derive(Clone, Copy, PartialEq, Eq, Debug)]
pub struct Sampler {
    pub address_u: AddressMode,
    pub address_v: AddressMode,
    pub address_w: AddressMode,
    pub mag_filter: FilterMode,
    pub min_filter: FilterMode,
}

impl Sampler {
    /// The default sampler: linear filtering, coordinates clamped to the edge.
    pub open spec fn spec_default() -> Sampler {
        Sampler {
            address_u: AddressMode::ClampToEdge,
            address_v: AddressMode::ClampToEdge,
            address_w: AddressMode::ClampToEdge,
            mag_filter: FilterMode::Linear,
            min_filter: FilterMode::Linear,
        }
    }
}

impl Default for Sampler {
    fn default() -> (s: Sampler)
        ensures
            s == Sampler::spec_default(),
    {
        Sampler {
            address_u: AddressMode::ClampToEdge,
            address_v: AddressMode::ClampToEdge,
            address_w: AddressMode::ClampToEdge,
            mag_filter: FilterMode::Linear,
            min_filter: FilterMode::Linear,
        }
    }
}

/// The pixel formats the canvas distinguishes.
#[derive(Clone, Copy, PartialEq, Eq, Debug)]
pub enum ImageFormat {
    Rgba8Unorm,
    Rgba8UnormSrgb,
    Bgra8Unorm,
    Bgra8UnormSrgb,
    Depth32Float,
}

/// What the canvas reads of an image resource: its pixel dimensions and
/// format. The texture memory itself is owned outside this crate.
#[derive(Clone, Copy, PartialEq, Eq, Debug)]
pub struct ImageInfo {
    pub width: u32,
    pub height: u32,
    pub format: ImageFormat,
}

/// What the canvas reads of the surrounding graphics context: the window
/// dimensions, the surface pixel format, and the current frame's target.
#[derive(Clone, Copy, PartialEq, Eq, Debug)]
pub struct GraphicsInfo {
    pub window_width: u32,
    pub window_height: u32,
    pub surface_format: ImageFormat,
    pub frame: ImageInfo,
}

} // verus!
