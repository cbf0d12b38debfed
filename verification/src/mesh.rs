//! Meshes as the canvas sees them, draw parameters, and per-draw instance
//! records.
//!
//! A mesh's geometry and GPU buffers live outside this crate; the canvas
//! reads only what it needs to plan a frame: how many indices a mesh draws,
//! which GPU resources it already has, and its bounding volume's center.

use vstd::prelude::*;

use crate::types::{Color, QuatData, Sampler, Vec3Data};

verus! {

/// An axis-aligned bounding volume, as center and half-extents.
#[derive(Clone, Copy, PartialEq, Eq, Debug)]
pub struct Aabb {
    pub center: Vec3Data,
    pub half_extents: Vec3Data,
}

impl Aabb {
    /// The zero-centered, zero-sized default volume.
    pub open spec fn spec_default() -> Aabb {
        Aabb {
            center: Vec3Data { x: 0, y: 0, z: 0 },
            half_extents: Vec3Data { x: 0, y: 0, z: 0 },
        }
    }
}

impl Default for Aabb {
    fn default() -> (a: Aabb)
        ensures
            a == Aabb::spec_default(),
    {
        Aabb {
            center: Vec3Data { x: 0, y: 0, z: 0 },
            half_extents: Vec3Data { x: 0, y: 0, z: 0 },
        }
    }
}

/// Position, rotation and scale of one draw, as bit patterns.
#[derive(Clone, Copy, PartialEq, Eq, Debug)]
pub struct Transform3d {
    pub position: Vec3Data,
    pub rotation: QuatData,
    pub scale: Vec3Data,
}

/// Parameters of one draw: a transform, a color, and an optional explicit
/// pivot offset. When the offset is absent the pivot is derived from the
/// mesh's bounding volume.
#[derive(Clone, Copy, PartialEq, Eq, Debug)]
pub struct DrawParam3d {
    pub transform: Transform3d,
    pub color: Color,
    pub offset: Option<Vec3Data>,
}

/// The texture bind group generated for a mesh: its handle, and the
/// pipeline index and sampler it was generated under.
#[derive(Clone, Copy, PartialEq, Eq, Debug)]
pub struct BindGroupInfo {
    pub id: u64,
    pub pipeline_id: usize,
    pub sampler: Sampler,
}

/// A mesh as the canvas reads it. `index_count` is how many 32-bit indices
/// one indexed draw of this mesh covers; the buffer handles are `Some` once
/// the mesh's GPU resources have been generated.
#[derive(Clone, Copy, PartialEq, Eq, Debug)]
pub struct Mesh3d {
    pub index_count: u32,
    pub vert_buffer: Option<u64>,
    pub ind_buffer: Option<u64>,
    pub bind_group: Option<BindGroupInfo>,
    pub bounds: Option<Aabb>,
}

/// `mesh` after bind-group generation: untouched when it already has one,
/// otherwise carrying a bind group with the given fresh handle, pipeline
/// index and sampler.
pub open spec fn spec_gen_bind_group(
    mesh: Mesh3d,
    fresh_id: u64,
    pipeline_id: usize,
    sampler: Sampler,
) -> Mesh3d {
    if mesh.bind_group is Some {
        mesh
    } else {
        Mesh3d {
            index_count: mesh.index_count,
            vert_buffer: mesh.vert_buffer,
            ind_buffer: mesh.ind_buffer,
            bind_group: Some(BindGroupInfo { id: fresh_id, pipeline_id, sampler }),
            bounds: mesh.bounds,
        }
    }
}

impl Mesh3d {
    /// The mesh's bounding volume, if one has been computed.
    pub fn to_aabb(&self) -> (r: Option<Aabb>)
        ensures
            r == self.bounds,
    {
        self.bounds
    }

    /// Attach a texture bind group if the mesh has none yet, recording the
    /// pipeline index and sampler it is generated under. Returns whether a
    /// new bind group was created. The driver creates the GPU-side group
    /// under the same handle.
    pub fn gen_bind_group(
        &mut self,
        fresh_id: u64,
        pipeline_id: usize,
        sampler: Sampler,
    ) -> (created: bool)
        ensures
            *final(self) == spec_gen_bind_group(*old(self), fresh_id, pipeline_id, sampler),
            created == (old(self).bind_group is None),
    {
        match self.bind_group {
            Some(_) => false,
            None => {
                self.bind_group = Some(BindGroupInfo { id: fresh_id, pipeline_id, sampler });
                true
            },
        }
    }
}

/// One per-draw instance record: the draw's transform and color, and the
/// pivot the driver expands the transform around.
#[derive(Clone, Copy, PartialEq, Eq, Debug)]
pub struct Instance3d {
    pub transform: Transform3d,
    pub color: Color,
    pub pivot: Vec3Data,
}

/// The pivot of one draw: the explicit offset when one was supplied, else
/// the center of the mesh's bounding volume, else the origin.
pub open spec fn spec_pivot_of(mesh: Mesh3d, param: DrawParam3d) -> Vec3Data {
    match param.offset {
        Some(o) => o,
        None => match mesh.bounds {
            Some(b) => b.center,
            None => Aabb::spec_default().center,
        },
    }
}

/// The instance record of one draw.
pub open spec fn spec_instance_of(mesh: Mesh3d, param: DrawParam3d) -> Instance3d {
    Instance3d {
        transform: param.transform,
        color: param.color,
        pivot: spec_pivot_of(mesh, param),
    }
}

impl Instance3d {
    /// The instance record of a draw with the given parameters and pivot.
    pub fn from_param(param: &DrawParam3d, pivot: Vec3Data) -> (inst: Instance3d)
        ensures
            inst == (Instance3d { transform: param.transform, color: param.color, pivot }),
    {
        Instance3d { transform: param.transform, color: param.color, pivot }
    }
}

} // verus!
