//! The canvas: the per-frame orchestrator that queues draw commands,
//! resolves pipelines, batches instance data, and plans one render pass per
//! frame for the driver to encode.

use vstd::prelude::*;

use crate::camera::{spec_uniform_of, Camera3d, CameraUniform};
use crate::mesh::{
    spec_gen_bind_group, spec_instance_of, Aabb, DrawParam3d, Instance3d, Mesh3d,
};
use crate::pipeline::{build_entry, spec_entry_of, spec_resolve, PipelineEntry};
use crate::shader::{state_matches, DrawState3d, Shader};
use crate::types::{Color, GraphicsInfo, ImageFormat, ImageInfo, Sampler};

verus! {

/// One pending draw: the mesh to draw, its parameters, and the index of the
/// pipeline it was resolved to when it was enqueued. Later shader changes do
/// not repin it.
#[derive(Clone, Copy, PartialEq, Eq, Debug)]
pub struct DrawCommand3d {
    pub mesh: Mesh3d,
    pub param: DrawParam3d,
    pub pipeline_id: usize,
}

/// A mesh GPU resource that was never generated before submission. The
/// caller can recover by generating the mesh's resources and enqueueing it
/// again next frame.
#[derive(Clone, Copy, PartialEq, Eq, Debug)]
pub enum RenderError {
    MissingBindGroup,
    MissingVertexBuffer,
    MissingIndexBuffer,
}

impl RenderError {
    /// A description of the missing resource.
    pub fn message(&self) -> (m: &'static str)
        ensures
            *self matches RenderError::MissingBindGroup ==> m@ == "Bind Group not generated for mesh"@,
            *self matches RenderError::MissingVertexBuffer ==> m@ == "Vert Buffer not generated for mesh"@,
            *self matches RenderError::MissingIndexBuffer ==> m@ == "Ind Buffer not generated for mesh"@,
    {
        match self {
            RenderError::MissingBindGroup => "Bind Group not generated for mesh",
            RenderError::MissingVertexBuffer => "Vert Buffer not generated for mesh",
            RenderError::MissingIndexBuffer => "Ind Buffer not generated for mesh",
        }
    }
}

/// The first resource missing from a command's mesh, checked in the order
/// the render pass binds them: bind group, vertex buffer, index buffer.
pub open spec fn spec_missing_resource(c: DrawCommand3d) -> Option<RenderError> {
    if c.mesh.bind_group is None {
        Some(RenderError::MissingBindGroup)
    } else if c.mesh.vert_buffer is None {
        Some(RenderError::MissingVertexBuffer)
    } else if c.mesh.ind_buffer is None {
        Some(RenderError::MissingIndexBuffer)
    } else {
        None
    }
}

/// One encoded draw of the planned render pass: which pipeline and mesh
/// resources to bind, and an indexed draw of `index_count` indices for the
/// single instance `first_instance` — the draw's position in the queue, so
/// the shader can look its instance record up by index.
#[derive(Clone, Copy, PartialEq, Eq, Debug)]
pub struct DrawStep {
    pub pipeline_id: usize,
    pub bind_group: u64,
    pub vert_buffer: u64,
    pub ind_buffer: u64,
    pub index_count: u32,
    pub first_instance: u32,
}

/// The draw step a command at queue position `i` turns into.
pub open spec fn spec_step_of(c: DrawCommand3d, i: int) -> DrawStep
    recommends
        spec_missing_resource(c) is None,
{
    DrawStep {
        pipeline_id: c.pipeline_id,
        bind_group: c.mesh.bind_group.unwrap().id,
        vert_buffer: c.mesh.vert_buffer.unwrap(),
        ind_buffer: c.mesh.ind_buffer.unwrap(),
        index_count: c.mesh.index_count,
        first_instance: i as u32,
    }
}

/// The plan of one frame: one render pass over the given target and depth
/// image, cleared to the given color (and the depth image to maximum
/// depth), then the steps in queue order. The driver encodes it, binding
/// the canvas's instance buffer and camera bind group throughout.
#[derive(PartialEq, Eq, Debug)]
pub struct FramePlan {
    pub target: ImageInfo,
    pub depth: ImageInfo,
    pub clear_color: Color,
    pub steps: Vec<DrawStep>,
}

/// A 3d canvas: one render target's worth of batched draw submission per
/// frame.
#[derive(Debug)]
pub struct Canvas3d {
    /// The draw state the next enqueued draws resolve their pipeline under.
    pub state: DrawState3d,
    /// The default draw state, whose shader supplies fallback modules.
    pub original_state: DrawState3d,
    /// The pipeline cache, append-only for the canvas's lifetime.
    pub pipelines: Vec<PipelineEntry>,
    /// The pending draw queue, cleared by every `finish`.
    pub draws: Vec<DrawCommand3d>,
    /// The camera uniform the driver keeps uploaded.
    pub camera_uniform: CameraUniform,
    /// The instance records of the last planned frame, one per queued draw;
    /// rebuilt by every `finish`, never reused across frames.
    pub instance_buffer: Option<Vec<Instance3d>>,
    /// The color target. Borrowed state of an externally owned image.
    pub target: ImageInfo,
    /// The canvas-owned depth image, matching the target's dimensions.
    pub depth: ImageInfo,
    /// The color the target is cleared to at the start of each pass.
    pub clear_color: Color,
    /// The sampler that newly generated texture bind groups use.
    pub curr_sampler: Sampler,
    /// The next unused bind-group handle.
    pub next_bind_group: u64,
}

impl Canvas3d {
    /// Well-formedness: the cache holds at least the default pipeline, built
    /// for the default state, whose shader supplies both fallback modules;
    /// and every queued command's pipeline index is in the cache.
    pub open spec fn wf(self) -> bool {
        &&& self.pipelines@.len() >= 1
        &&& self.original_state.shader.complete()
        &&& crate::shader::state_eq(self.pipelines@[0].state, self.original_state)
        &&& forall|i: int|
            0 <= i < self.draws@.len() ==> (#[trigger] self.draws@[i]).pipeline_id
                < self.pipelines@.len()
    }

    /// Create a canvas over the given target image.
    pub fn new(
        gfx: &GraphicsInfo,
        default_shader: Shader,
        camera: &mut Camera3d,
        target: ImageInfo,
        clear_color: Color,
    ) -> (c: Canvas3d)
        requires
            default_shader.complete(),
            gfx.window_height >= 1,
        ensures
            c.wf(),
            *final(camera) == Camera3d::spec_resized(
                *old(camera),
                gfx.window_width,
                gfx.window_height,
            ),
            Canvas3d::spec_fresh(c, default_shader, *final(camera), target, clear_color),
    {
        let mut projection = camera.projection;
        projection.resize(gfx.window_width, gfx.window_height);
        camera.projection = projection;

        let mut camera_uniform = CameraUniform::new();
        camera_uniform.update_view_proj(camera);

        let state = DrawState3d { shader: default_shader };
        let entry = build_entry(&state, &state);
        let mut pipelines: Vec<PipelineEntry> = Vec::new();
        pipelines.push(entry);

        let depth = ImageInfo {
            width: target.width,
            height: target.height,
            format: ImageFormat::Depth32Float,
        };

        Canvas3d {
            state: state,
            original_state: state,
            pipelines: pipelines,
            draws: Vec::new(),
            camera_uniform: camera_uniform,
            instance_buffer: None,
            target: target,
            depth: depth,
            clear_color: clear_color,
            curr_sampler: Sampler::default(),
            next_bind_group: 0,
        }
    }

    /// Create a canvas that renders to the current frame, filling the whole
    /// window.
    pub fn from_frame(
        gfx: &GraphicsInfo,
        default_shader: Shader,
        camera: &mut Camera3d,
        clear_color: Color,
    ) -> (c: Canvas3d)
        requires
            default_shader.complete(),
            gfx.window_height >= 1,
        ensures
            c.wf(),
            *final(camera) == Camera3d::spec_resized(
                *old(camera),
                gfx.window_width,
                gfx.window_height,
            ),
            Canvas3d::spec_fresh(c, default_shader, *final(camera), gfx.frame, clear_color),
    {
        Canvas3d::new(gfx, default_shader, camera, gfx.frame, clear_color)
    }

    /// Create a canvas that renders to the given image.
    pub fn from_image(
        gfx: &GraphicsInfo,
        default_shader: Shader,
        camera: &mut Camera3d,
        image: ImageInfo,
        clear_color: Color,
    ) -> (c: Canvas3d)
        requires
            default_shader.complete(),
            gfx.window_height >= 1,
        ensures
            c.wf(),
            *final(camera) == Camera3d::spec_resized(
                *old(camera),
                gfx.window_width,
                gfx.window_height,
            ),
            Canvas3d::spec_fresh(c, default_shader, *final(camera), image, clear_color),
    {
        Canvas3d::new(gfx, default_shader, camera, image, clear_color)
    }

    /// What a freshly constructed canvas looks like: the given shader as
    /// both current and default state, a cache holding exactly the default
    /// pipeline, an empty queue, a uniform mirroring the resized camera,
    /// a canvas-owned depth image matching the target, and the default
    /// sampler.
    pub open spec fn spec_fresh(
        c: Canvas3d,
        default_shader: Shader,
        camera: Camera3d,
        target: ImageInfo,
        clear_color: Color,
    ) -> bool {
        let state = DrawState3d { shader: default_shader };
        &&& c.state == state
        &&& c.original_state == state
        &&& c.pipelines@.len() == 1
        &&& c.pipelines@[0] == spec_entry_of(state, state)
        &&& c.draws@.len() == 0
        &&& c.camera_uniform == spec_uniform_of(camera)
        &&& c.instance_buffer is None
        &&& c.target == target
        &&& c.depth == (ImageInfo {
            width: target.width,
            height: target.height,
            format: ImageFormat::Depth32Float,
        })
        &&& c.clear_color == clear_color
        &&& c.curr_sampler == Sampler::spec_default()
        &&& c.next_bind_group == 0
    }

    /// Everything a shader change leaves alone: all state but the current
    /// draw state. In particular already-enqueued commands keep the
    /// pipeline they resolved to.
    pub open spec fn same_but_state(a: Canvas3d, b: Canvas3d) -> bool {
        &&& a.original_state == b.original_state
        &&& a.pipelines == b.pipelines
        &&& a.draws == b.draws
        &&& a.camera_uniform == b.camera_uniform
        &&& a.instance_buffer == b.instance_buffer
        &&& a.target == b.target
        &&& a.depth == b.depth
        &&& a.clear_color == b.clear_color
        &&& a.curr_sampler == b.curr_sampler
        &&& a.next_bind_group == b.next_bind_group
    }

    /// Everything a sampler change leaves alone.
    pub open spec fn same_but_sampler(a: Canvas3d, b: Canvas3d) -> bool {
        &&& a.state == b.state
        &&& a.original_state == b.original_state
        &&& a.pipelines == b.pipelines
        &&& a.draws == b.draws
        &&& a.camera_uniform == b.camera_uniform
        &&& a.instance_buffer == b.instance_buffer
        &&& a.target == b.target
        &&& a.depth == b.depth
        &&& a.clear_color == b.clear_color
        &&& a.next_bind_group == b.next_bind_group
    }

    /// Everything a camera update leaves alone.
    pub open spec fn same_but_uniform(a: Canvas3d, b: Canvas3d) -> bool {
        &&& a.state == b.state
        &&& a.original_state == b.original_state
        &&& a.pipelines == b.pipelines
        &&& a.draws == b.draws
        &&& a.instance_buffer == b.instance_buffer
        &&& a.target == b.target
        &&& a.depth == b.depth
        &&& a.clear_color == b.clear_color
        &&& a.curr_sampler == b.curr_sampler
        &&& a.next_bind_group == b.next_bind_group
    }

    /// Set the shader back to the default shader. Only the next draws'
    /// pipeline resolution is affected.
    pub fn set_default_shader(&mut self)
        ensures
            final(self).state == old(self).original_state,
            Canvas3d::same_but_state(*final(self), *old(self)),
    {
        let shader: Shader = self.original_state.shader;
        self.state = DrawState3d { shader };
    }

    /// Set a custom shader. Only the next draws' pipeline resolution is
    /// affected.
    pub fn set_shader(&mut self, shader: Shader)
        ensures
            final(self).state == (DrawState3d { shader }),
            Canvas3d::same_but_state(*final(self), *old(self)),
    {
        self.state = DrawState3d { shader };
    }

    /// Set the sampler that bind groups generated for the next draws use.
    pub fn set_sampler(&mut self, sampler: Sampler)
        ensures
            final(self).curr_sampler == sampler,
            Canvas3d::same_but_sampler(*final(self), *old(self)),
    {
        self.curr_sampler = sampler;
    }

    /// Set the sampler back to the default.
    pub fn set_default_sampler(&mut self)
        ensures
            final(self).curr_sampler == Sampler::spec_default(),
            Canvas3d::same_but_sampler(*final(self), *old(self)),
    {
        self.curr_sampler = Sampler::default();
    }

    /// Resize the canvas and the camera's projection: the camera's aspect
    /// ratio becomes `width / height` in lowest terms and the uniform is
    /// recomputed. The driver re-uploads the uniform after this call.
    pub fn resize(&mut self, width: u32, height: u32, camera: &mut Camera3d)
        requires
            height >= 1,
        ensures
            *final(camera) == Camera3d::spec_resized(*old(camera), width, height),
            final(self).camera_uniform == spec_uniform_of(*final(camera)),
            Canvas3d::same_but_uniform(*final(self), *old(self)),
    {
        let mut projection = camera.projection;
        projection.resize(width, height);
        camera.projection = projection;
        let mut uniform = self.camera_uniform;
        uniform.update_view_proj(camera);
        self.camera_uniform = uniform;
    }

    /// Recompute the camera uniform from the camera's current state. The
    /// driver re-uploads the uniform after this call.
    pub fn update_camera(&mut self, camera: &Camera3d)
        ensures
            final(self).camera_uniform == spec_uniform_of(*camera),
            Canvas3d::same_but_uniform(*final(self), *old(self)),
    {
        let mut uniform = self.camera_uniform;
        uniform.update_view_proj(camera);
        self.camera_uniform = uniform;
    }

    /// Append a pipeline built for the current draw state, inheriting any
    /// module its shader lacks from the default shader.
    pub(crate) fn update_pipeline(&mut self)
        requires
            old(self).wf(),
        ensures
            final(self).wf(),
            final(self).pipelines@ == old(self).pipelines@.push(
                spec_entry_of(old(self).state, old(self).original_state),
            ),
            final(self).state == old(self).state,
            final(self).original_state == old(self).original_state,
            final(self).draws == old(self).draws,
            final(self).camera_uniform == old(self).camera_uniform,
            final(self).instance_buffer == old(self).instance_buffer,
            final(self).target == old(self).target,
            final(self).depth == old(self).depth,
            final(self).clear_color == old(self).clear_color,
            final(self).curr_sampler == old(self).curr_sampler,
            final(self).next_bind_group == old(self).next_bind_group,
    {
        let entry = build_entry(&self.state, &self.original_state);
        self.pipelines.push(entry);
    }

    /// Enqueue one draw of `mesh`. Its pipeline index is resolved under the
    /// current draw state by scan order: the cache entry scanned last is
    /// reused when it carries the current shader identity, otherwise a new
    /// pipeline is appended and used — so the cache may grow a duplicate for
    /// a state that an earlier entry already carries. A texture bind group
    /// is generated for the mesh if it has none. Nothing fails here;
    /// missing mesh resources surface at `finish`.
    pub fn draw_mesh(&mut self, mesh: Mesh3d, param: DrawParam3d)
        requires
            old(self).wf(),
        ensures
            final(self).wf(),
            final(self).pipelines@ == spec_resolve(
                old(self).pipelines@,
                old(self).state,
                old(self).original_state,
            ).0,
            final(self).draws@.len() == old(self).draws@.len() + 1,
            forall|i: int|
                0 <= i < old(self).draws@.len() ==> final(self).draws@[i] == old(self).draws@[i],
            ({
                let cmd = final(self).draws@.last();
                &&& cmd.pipeline_id as int == spec_resolve(
                    old(self).pipelines@,
                    old(self).state,
                    old(self).original_state,
                ).1
                &&& cmd.param == param
                &&& cmd.mesh == spec_gen_bind_group(
                    mesh,
                    old(self).next_bind_group,
                    cmd.pipeline_id,
                    old(self).curr_sampler,
                )
            }),
            final(self).next_bind_group as int == (if mesh.bind_group is Some {
                old(self).next_bind_group as int
            } else if old(self).next_bind_group < u64::MAX {
                old(self).next_bind_group + 1
            } else {
                u64::MAX as int
            }),
            final(self).state == old(self).state,
            final(self).original_state == old(self).original_state,
            final(self).camera_uniform == old(self).camera_uniform,
            final(self).instance_buffer == old(self).instance_buffer,
            final(self).target == old(self).target,
            final(self).depth == old(self).depth,
            final(self).clear_color == old(self).clear_color,
            final(self).curr_sampler == old(self).curr_sampler,
    {
        let n: usize = self.pipelines.len();
        let id: usize;
        if state_matches(&self.pipelines[n - 1].state, &self.state) {
            id = n - 1;
        } else {
            id = n;
            self.update_pipeline();
        }

        let mut mesh = mesh;
        let created = mesh.gen_bind_group(self.next_bind_group, id, self.curr_sampler);
        if created && self.next_bind_group < u64::MAX {
            self.next_bind_group = self.next_bind_group + 1;
        }
        self.draws.push(DrawCommand3d { mesh, param, pipeline_id: id });
    }

    /// Rebuild the instance records from the current queue: one record per
    /// queued draw, in submission order. The driver uploads them as the
    /// per-instance vertex buffer of the coming pass.
    pub(crate) fn update_instance_data(&mut self)
        ensures
            final(self).instance_buffer matches Some(v) && v@.len() == old(self).draws@.len()
                && forall|i: int|
                0 <= i < old(self).draws@.len() ==> v@[i] == spec_instance_of(
                    #[trigger] old(self).draws@[i].mesh,
                    old(self).draws@[i].param,
                ),
            final(self).state == old(self).state,
            final(self).original_state == old(self).original_state,
            final(self).pipelines == old(self).pipelines,
            final(self).draws == old(self).draws,
            final(self).camera_uniform == old(self).camera_uniform,
            final(self).target == old(self).target,
            final(self).depth == old(self).depth,
            final(self).clear_color == old(self).clear_color,
            final(self).curr_sampler == old(self).curr_sampler,
            final(self).next_bind_group == old(self).next_bind_group,
    {
        let mut data: Vec<Instance3d> = Vec::new();
        let mut i: usize = 0;
        while i < self.draws.len()
            invariant
                i <= self.draws@.len(),
                data@.len() == i as int,
                forall|k: int|
                    0 <= k < i ==> data@[k] == spec_instance_of(
                        #[trigger] self.draws@[k].mesh,
                        self.draws@[k].param,
                    ),
                *self == *old(self),
            decreases self.draws@.len() - i,
        {
            let mesh = self.draws[i].mesh;
            let param = self.draws[i].param;
            let inst = match param.offset {
                Some(offset) => Instance3d::from_param(&param, offset),
                None => {
                    let bb = match mesh.to_aabb() {
                        Some(b) => b,
                        None => Aabb::default(),
                    };
                    Instance3d::from_param(&param, bb.center)
                },
            };
            data.push(inst);
            i = i + 1;
        }
        self.instance_buffer = Some(data);
    }

    /// Finish the frame. Rebuilds the instance records from the queue, then
    /// plans one render pass: the target cleared to the clear color, the
    /// depth image cleared to maximum depth, and one step per queued draw in
    /// submission order, each binding its resolved pipeline and its mesh's
    /// resources and drawing one instance at its queue position.
    ///
    /// Fails with the first missing mesh resource, in bind order; the steps
    /// already planned for that frame are discarded. The queue is left empty
    /// either way, and the instance records cover the whole queue either
    /// way.
    pub fn finish(&mut self) -> (r: Result<FramePlan, RenderError>)
        requires
            old(self).wf(),
        ensures
            final(self).wf(),
            final(self).draws@.len() == 0,
            final(self).instance_buffer matches Some(v) && v@.len() == old(self).draws@.len()
                && forall|i: int|
                0 <= i < old(self).draws@.len() ==> v@[i] == spec_instance_of(
                    #[trigger] old(self).draws@[i].mesh,
                    old(self).draws@[i].param,
                ),
            r is Ok <==> (forall|i: int|
                0 <= i < old(self).draws@.len() ==> spec_missing_resource(
                    #[trigger] old(self).draws@[i],
                ) is None),
            r matches Ok(plan) ==> {
                &&& plan.target == old(self).target
                &&& plan.depth == old(self).depth
                &&& plan.clear_color == old(self).clear_color
                &&& plan.steps@.len() == old(self).draws@.len()
                &&& forall|i: int|
                    0 <= i < old(self).draws@.len() ==> plan.steps@[i] == spec_step_of(
                        #[trigger] old(self).draws@[i],
                        i,
                    )
            },
            r matches Err(e) ==> (exists|j: int|
                {
                    &&& 0 <= j < old(self).draws@.len()
                    &&& spec_missing_resource(#[trigger] old(self).draws@[j]) == Some(e)
                    &&& forall|k: int|
                        0 <= k < j ==> spec_missing_resource(#[trigger] old(self).draws@[k]) is None
                }),
            final(self).state == old(self).state,
            final(self).original_state == old(self).original_state,
            final(self).pipelines == old(self).pipelines,
            final(self).camera_uniform == old(self).camera_uniform,
            final(self).target == old(self).target,
            final(self).depth == old(self).depth,
            final(self).clear_color == old(self).clear_color,
            final(self).curr_sampler == old(self).curr_sampler,
            final(self).next_bind_group == old(self).next_bind_group,
    {
        self.update_instance_data();

        let mut steps: Vec<DrawStep> = Vec::new();
        let mut i: usize = 0;
        while i < self.draws.len()
            invariant
                old(self).wf(),
                i <= self.draws@.len(),
                steps@.len() == i as int,
                forall|k: int|
                    0 <= k < i ==> steps@[k] == spec_step_of(#[trigger] self.draws@[k], k),
                forall|k: int|
                    0 <= k < i ==> spec_missing_resource(#[trigger] self.draws@[k]) is None,
                self.draws == old(self).draws,
                self.pipelines == old(self).pipelines,
                self.state == old(self).state,
                self.original_state == old(self).original_state,
                self.camera_uniform == old(self).camera_uniform,
                self.target == old(self).target,
                self.depth == old(self).depth,
                self.clear_color == old(self).clear_color,
                self.curr_sampler == old(self).curr_sampler,
                self.next_bind_group == old(self).next_bind_group,
                self.instance_buffer matches Some(v) && v@.len() == old(self).draws@.len()
                    && forall|k: int|
                    0 <= k < old(self).draws@.len() ==> v@[k] == spec_instance_of(
                        #[trigger] old(self).draws@[k].mesh,
                        old(self).draws@[k].param,
                    ),
            decreases self.draws@.len() - i,
        {
            let cmd = self.draws[i];
            let bg = match cmd.mesh.bind_group {
                Some(b) => b,
                None => {
                    self.draws = Vec::new();
                    return Err(RenderError::MissingBindGroup);
                },
            };
            let vb: u64 = match cmd.mesh.vert_buffer {
                Some(b) => b,
                None => {
                    self.draws = Vec::new();
                    return Err(RenderError::MissingVertexBuffer);
                },
            };
            let ib: u64 = match cmd.mesh.ind_buffer {
                Some(b) => b,
                None => {
                    self.draws = Vec::new();
                    return Err(RenderError::MissingIndexBuffer);
                },
            };
            steps.push(
                DrawStep {
                    pipeline_id: cmd.pipeline_id,
                    bind_group: bg.id,
                    vert_buffer: vb,
                    ind_buffer: ib,
                    index_count: cmd.mesh.index_count,
                    first_instance: i as u32,
                },
            );
            i = i + 1;
        }
        let plan = FramePlan {
            target: self.target,
            depth: self.depth,
            clear_color: self.clear_color,
            steps,
        };
        self.draws = Vec::new();
        Ok(plan)
    }
}

/// Anything that knows how to enqueue its own draws onto a canvas. The
/// canvas promises nothing about which draws an implementation enqueues,
/// but every implementation leaves the canvas well-formed, only appends to
/// the queue and the pipeline cache, and leaves the rest of the canvas
/// alone.
pub trait Drawable3d {
    /// Enqueue this drawable's draws onto `canvas`.
    fn draw(&self, canvas: &mut Canvas3d, param: DrawParam3d)
        requires
            old(canvas).wf(),
        ensures
            final(canvas).wf(),
            final(canvas).pipelines@.len() >= old(canvas).pipelines@.len(),
            forall|i: int|
                0 <= i < old(canvas).pipelines@.len() ==> final(canvas).pipelines@[i] == old(
                    canvas,
                ).pipelines@[i],
            final(canvas).draws@.len() >= old(canvas).draws@.len(),
            forall|i: int|
                0 <= i < old(canvas).draws@.len() ==> final(canvas).draws@[i] == old(
                    canvas,
                ).draws@[i],
            final(canvas).state == old(canvas).state,
            final(canvas).original_state == old(canvas).original_state,
            final(canvas).camera_uniform == old(canvas).camera_uniform,
            final(canvas).instance_buffer == old(canvas).instance_buffer,
            final(canvas).target == old(canvas).target,
            final(canvas).depth == old(canvas).depth,
            final(canvas).clear_color == old(canvas).clear_color,
            final(canvas).curr_sampler == old(canvas).curr_sampler,
    ;
}

impl Drawable3d for Mesh3d {
    /// One mesh draws itself by enqueueing a single draw command.
    fn draw(&self, canvas: &mut Canvas3d, param: DrawParam3d) {
        canvas.draw_mesh(*self, param);
    }
}

impl Canvas3d {
    /// Draw anything that implements `Drawable3d`.
    pub fn draw<D: Drawable3d>(&mut self, drawable: &D, param: DrawParam3d)
        requires
            old(self).wf(),
        ensures
            final(self).wf(),
            final(self).pipelines@.len() >= old(self).pipelines@.len(),
            forall|i: int|
                0 <= i < old(self).pipelines@.len() ==> final(self).pipelines@[i] == old(
                    self,
                ).pipelines@[i],
            final(self).draws@.len() >= old(self).draws@.len(),
            forall|i: int|
                0 <= i < old(self).draws@.len() ==> final(self).draws@[i] == old(self).draws@[i],
            final(self).state == old(self).state,
            final(self).original_state == old(self).original_state,
            final(self).camera_uniform == old(self).camera_uniform,
            final(self).instance_buffer == old(self).instance_buffer,
            final(self).target == old(self).target,
            final(self).depth == old(self).depth,
            final(self).clear_color == old(self).clear_color,
            final(self).curr_sampler == old(self).curr_sampler,
    {
        drawable.draw(self, param);
    }
}

} // verus!
