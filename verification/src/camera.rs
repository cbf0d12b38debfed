//! The camera model and the per-frame camera uniform.
//!
//! The canvas mirrors the camera's projection and view state into a uniform
//! that the driver uploads to the GPU each time it changes. The expansion of
//! these parameters into a floating-point view-projection matrix is the
//! driver's and the shader's concern; the canvas only records the parameters
//! that determine the matrix, so that two uniforms are equal exactly when
//! they describe the same matrix.

use vstd::prelude::*;

use crate::ratio::{lemma_reduce_canonical, lemma_reduce_parts, reduce_ratio, spec_reduce};
use crate::types::Vec3Data;

verus! {

/// Perspective projection parameters. The aspect ratio is an exact fraction
/// in lowest terms; the remaining parameters are IEEE-754 bit patterns that
/// the canvas never interprets.
#[derive(Clone, Copy, PartialEq, Eq, Debug)]
pub struct Projection {
    pub aspect_num: u32,
    pub aspect_den: u32,
    pub fovy: u32,
    pub znear: u32,
    pub zfar: u32,
}

impl Projection {
    /// `p` with its aspect ratio set to `w / h` in lowest terms.
    pub open spec fn spec_resized(p: Projection, w: u32, h: u32) -> Projection {
        Projection {
            aspect_num: spec_reduce(w as nat, h as nat).0 as u32,
            aspect_den: spec_reduce(w as nat, h as nat).1 as u32,
            fovy: p.fovy,
            znear: p.znear,
            zfar: p.zfar,
        }
    }

    /// Set the aspect ratio from a target's pixel dimensions.
    pub fn resize(&mut self, width: u32, height: u32)
        requires
            height >= 1,
        ensures
            *final(self) == Projection::spec_resized(*old(self), width, height),
    {
        let r: (u32, u32) = reduce_ratio(width, height);
        self.aspect_num = r.0;
        self.aspect_den = r.1;
    }
}

/// The camera's view state: position and orientation, as bit patterns.
#[derive(Clone, Copy, PartialEq, Eq, Debug)]
pub struct CameraView {
    pub position: Vec3Data,
    pub yaw: u32,
    pub pitch: u32,
}

/// A camera: projection parameters plus view state. The canvas adjusts the
/// projection's aspect ratio on construction and on resize; everything else
/// belongs to the driver.
#[derive(Clone, Copy, PartialEq, Eq, Debug)]
pub struct Camera3d {
    pub projection: Projection,
    pub view: CameraView,
}

impl Camera3d {
    /// `c` with its projection's aspect ratio set to `w / h` in lowest terms.
    pub open spec fn spec_resized(c: Camera3d, w: u32, h: u32) -> Camera3d {
        Camera3d { projection: Projection::spec_resized(c.projection, w, h), view: c.view }
    }
}

/// The camera uniform: the parameters that determine the view-projection
/// matrix, mirrored from a camera. The driver expands them into the matrix
/// it uploads.
#[derive(Clone, Copy, PartialEq, Eq, Debug)]
pub struct CameraUniform {
    pub proj: Projection,
    pub view: CameraView,
}

/// The uniform that mirrors camera `c`.
pub open spec fn spec_uniform_of(c: Camera3d) -> CameraUniform {
    CameraUniform { proj: c.projection, view: c.view }
}

impl CameraUniform {
    /// A uniform for a camera that has not been mirrored yet: a square
    /// aspect ratio and zeroed parameters.
    pub fn new() -> (u: CameraUniform)
        ensures
            u == (CameraUniform {
                proj: Projection {
                    aspect_num: 1,
                    aspect_den: 1,
                    fovy: 0,
                    znear: 0,
                    zfar: 0,
                },
                view: CameraView { position: Vec3Data { x: 0, y: 0, z: 0 }, yaw: 0, pitch: 0 },
            }),
    {
        CameraUniform {
            proj: Projection { aspect_num: 1, aspect_den: 1, fovy: 0, znear: 0, zfar: 0 },
            view: CameraView { position: Vec3Data { x: 0, y: 0, z: 0 }, yaw: 0, pitch: 0 },
        }
    }

    /// Mirror the camera's state into the uniform.
    pub fn update_view_proj(&mut self, camera: &Camera3d)
        ensures
            *final(self) == spec_uniform_of(*camera),
    {
        self.proj = camera.projection;
        self.view = camera.view;
    }
}

/// A resize changes the camera uniform exactly when the aspect ratio
/// changes: from any one camera, resizes to `w1 x h1` and to `w2 x h2`
/// yield the same uniform precisely when `w1 / h1` and `w2 / h2` are the
/// same exact ratio. Since a later resize overwrites an earlier one — the
/// last ensures clause — this says in particular that resizing a canvas
/// leaves the uniform of an earlier resize unchanged if and only if the
/// aspect ratio stayed the same.
pub proof fn lemma_resize_uniform_change(c: Camera3d, w1: u32, h1: u32, w2: u32, h2: u32)
    requires
        h1 >= 1,
        h2 >= 1,
    ensures
        (spec_uniform_of(Camera3d::spec_resized(c, w1, h1)) == spec_uniform_of(
            Camera3d::spec_resized(c, w2, h2),
        )) <==> w1 as nat * h2 as nat == w2 as nat * h1 as nat,
        Camera3d::spec_resized(Camera3d::spec_resized(c, w1, h1), w2, h2)
            == Camera3d::spec_resized(c, w2, h2),
{
    lemma_reduce_parts(w1 as nat, h1 as nat);
    lemma_reduce_parts(w2 as nat, h2 as nat);
    lemma_reduce_canonical(w1 as nat, h1 as nat, w2 as nat, h2 as nat);
    let r1 = spec_reduce(w1 as nat, h1 as nat);
    let r2 = spec_reduce(w2 as nat, h2 as nat);
    assert(r1.0 <= u32::MAX && r1.1 <= u32::MAX && r2.0 <= u32::MAX && r2.1 <= u32::MAX);
}

} // verus!
