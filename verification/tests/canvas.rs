use canvas3d::{
    Aabb, Camera3d, CameraView, Canvas3d, Color, DrawParam3d, GraphicsInfo, ImageFormat,
    ImageInfo, Mesh3d, Projection, QuatData, RenderError, Shader, Transform3d, Vec3Data,
};

fn default_shader() -> Shader {
    Shader {
        id: 1,
        vs_module: Some(10),
        fs_module: Some(11),
    }
}

fn gfx_info() -> GraphicsInfo {
    GraphicsInfo {
        window_width: 800,
        window_height: 600,
        surface_format: ImageFormat::Bgra8UnormSrgb,
        frame: ImageInfo {
            width: 800,
            height: 600,
            format: ImageFormat::Bgra8UnormSrgb,
        },
    }
}

fn camera() -> Camera3d {
    Camera3d {
        projection: Projection {
            aspect_num: 1,
            aspect_den: 1,
            fovy: 0x3F490FDB, // bits of roughly pi/4
            znear: 0x3DCCCCCD,
            zfar: 0x42C80000,
        },
        view: CameraView {
            position: Vec3Data { x: 0, y: 0, z: 0 },
            yaw: 0,
            pitch: 0,
        },
    }
}

fn canvas() -> Canvas3d {
    let mut cam = camera();
    Canvas3d::from_frame(&gfx_info(), default_shader(), &mut cam, black())
}

fn black() -> Color {
    Color { r: 0, g: 0, b: 0, a: 0x3F800000 }
}

fn param() -> DrawParam3d {
    DrawParam3d {
        transform: Transform3d {
            position: Vec3Data { x: 0, y: 0, z: 0 },
            rotation: QuatData { x: 0, y: 0, z: 0, w: 0x3F800000 },
            scale: Vec3Data {
                x: 0x3F800000,
                y: 0x3F800000,
                z: 0x3F800000,
            },
        },
        color: Color {
            r: 0x3F800000,
            g: 0x3F800000,
            b: 0x3F800000,
            a: 0x3F800000,
        },
        offset: None,
    }
}

fn ready_mesh() -> Mesh3d {
    Mesh3d {
        index_count: 36,
        vert_buffer: Some(100),
        ind_buffer: Some(101),
        bind_group: None,
        bounds: Some(Aabb {
            center: Vec3Data { x: 7, y: 8, z: 9 },
            half_extents: Vec3Data { x: 1, y: 1, z: 1 },
        }),
    }
}

#[test]
fn fresh_canvas_has_default_pipeline() {
    let c = canvas();
    assert_eq!(c.pipelines.len(), 1);
    assert_eq!(c.pipelines[0].vs_module, 10);
    assert_eq!(c.pipelines[0].fs_module, 11);
    assert_eq!(c.pipelines[0].state.shader.id, 1);
    assert_eq!(c.draws.len(), 0);
    assert!(c.instance_buffer.is_none());
    assert_eq!(c.depth.format, ImageFormat::Depth32Float);
    assert_eq!(c.depth.width, 800);
    assert_eq!(c.depth.height, 600);
}

#[test]
fn constructor_sets_camera_aspect_in_lowest_terms() {
    let mut cam = camera();
    let _ = Canvas3d::from_frame(&gfx_info(), default_shader(), &mut cam, black());
    assert_eq!(cam.projection.aspect_num, 4);
    assert_eq!(cam.projection.aspect_den, 3);
}

#[test]
fn from_image_targets_the_given_image() {
    let mut cam = camera();
    let image = ImageInfo {
        width: 256,
        height: 128,
        format: ImageFormat::Rgba8Unorm,
    };
    let c = Canvas3d::from_image(&gfx_info(), default_shader(), &mut cam, image, black());
    assert_eq!(c.target, image);
    assert_eq!(c.depth.width, 256);
    assert_eq!(c.depth.height, 128);
}

#[test]
fn unchanged_shader_keeps_cache_at_one_entry() {
    let mut c = canvas();
    for _ in 0..3 {
        c.draw_mesh(ready_mesh(), param());
    }
    let r = c.finish();
    assert!(r.is_ok());
    assert_eq!(c.pipelines.len(), 1);
}

#[test]
fn alternating_shaders_grow_cache_monotonically() {
    let mut c = canvas();
    let shader_a = Shader {
        id: 2,
        vs_module: Some(20),
        fs_module: Some(21),
    };
    let shader_b = Shader {
        id: 3,
        vs_module: Some(30),
        fs_module: Some(31),
    };
    let mut enqueues = 0;
    let mut last_len = c.pipelines.len();
    for round in 0..2 {
        let _ = round;
        c.set_shader(shader_a);
        c.draw_mesh(ready_mesh(), param());
        enqueues += 1;
        assert!(c.pipelines.len() >= last_len);
        last_len = c.pipelines.len();
        c.set_shader(shader_b);
        c.draw_mesh(ready_mesh(), param());
        enqueues += 1;
        assert!(c.pipelines.len() >= last_len);
        last_len = c.pipelines.len();
    }
    let _ = c.finish();
    assert!(c.pipelines.len() <= enqueues + 1);
}

#[test]
fn alternating_shaders_may_duplicate_entries() {
    // Growth is driven by scan position: when the tail entry does not match
    // the current shader, a new pipeline is appended even though an equal
    // entry exists earlier in the cache.
    let mut c = canvas();
    let shader_a = Shader {
        id: 2,
        vs_module: Some(20),
        fs_module: Some(21),
    };
    let shader_b = Shader {
        id: 3,
        vs_module: Some(30),
        fs_module: Some(31),
    };
    c.set_shader(shader_a);
    c.draw_mesh(ready_mesh(), param());
    c.set_shader(shader_b);
    c.draw_mesh(ready_mesh(), param());
    c.set_shader(shader_a);
    c.draw_mesh(ready_mesh(), param());
    assert_eq!(c.pipelines.len(), 4);
    assert_eq!(c.pipelines[1].state.shader.id, 2);
    assert_eq!(c.pipelines[2].state.shader.id, 3);
    assert_eq!(c.pipelines[3].state.shader.id, 2);
}

#[test]
fn queue_empty_after_successful_finish() {
    let mut c = canvas();
    c.draw_mesh(ready_mesh(), param());
    c.draw_mesh(ready_mesh(), param());
    let r = c.finish();
    assert!(r.is_ok());
    assert_eq!(c.draws.len(), 0);
}

#[test]
fn queue_empty_after_failed_finish() {
    let mut c = canvas();
    let mut broken = ready_mesh();
    broken.vert_buffer = None;
    c.draw_mesh(ready_mesh(), param());
    c.draw_mesh(broken, param());
    let r = c.finish();
    assert!(r.is_err());
    assert_eq!(c.draws.len(), 0);
}

#[test]
fn instance_buffer_has_one_record_per_draw() {
    let mut c = canvas();
    for _ in 0..5 {
        c.draw_mesh(ready_mesh(), param());
    }
    let _ = c.finish();
    let records = c.instance_buffer.as_ref().expect("instance records built");
    assert_eq!(records.len(), 5);
}

#[test]
fn instance_records_pick_offset_then_bounds_then_origin() {
    let mut c = canvas();
    let mut with_offset = param();
    with_offset.offset = Some(Vec3Data { x: 1, y: 2, z: 3 });
    c.draw_mesh(ready_mesh(), with_offset);
    c.draw_mesh(ready_mesh(), param());
    let mut boundless = ready_mesh();
    boundless.bounds = None;
    c.draw_mesh(boundless, param());
    let r = c.finish();
    assert!(r.is_ok());
    let records = c.instance_buffer.as_ref().unwrap();
    assert_eq!(records[0].pivot, Vec3Data { x: 1, y: 2, z: 3 });
    assert_eq!(records[1].pivot, Vec3Data { x: 7, y: 8, z: 9 });
    assert_eq!(records[2].pivot, Vec3Data { x: 0, y: 0, z: 0 });
}

#[test]
fn three_draws_plan_three_steps_with_consecutive_instances() {
    let mut c = canvas();
    for _ in 0..3 {
        c.draw_mesh(ready_mesh(), param());
    }
    let plan = c.finish().expect("plan");
    assert_eq!(c.pipelines.len(), 1);
    assert_eq!(c.instance_buffer.as_ref().unwrap().len(), 3);
    assert_eq!(plan.steps.len(), 3);
    for (i, step) in plan.steps.iter().enumerate() {
        assert_eq!(step.first_instance, i as u32);
        assert_eq!(step.pipeline_id, 0);
        assert_eq!(step.index_count, 36);
        assert_eq!(step.vert_buffer, 100);
        assert_eq!(step.ind_buffer, 101);
    }
    assert_eq!(plan.clear_color, black());
    assert_eq!(plan.target, gfx_info().frame);
}

#[test]
fn missing_index_buffer_fails_finish_naming_it() {
    let mut c = canvas();
    let mut mesh = ready_mesh();
    mesh.ind_buffer = None;
    c.draw_mesh(mesh, param());
    let r = c.finish();
    assert_eq!(r, Err(RenderError::MissingIndexBuffer));
    assert_eq!(
        r.unwrap_err().message(),
        "Ind Buffer not generated for mesh"
    );
}

#[test]
fn missing_vertex_buffer_fails_finish_naming_it() {
    let mut c = canvas();
    let mut mesh = ready_mesh();
    mesh.vert_buffer = None;
    mesh.ind_buffer = None;
    c.draw_mesh(mesh, param());
    let r = c.finish();
    // The vertex buffer is bound before the index buffer, so it is the one
    // reported when both are missing.
    assert_eq!(r, Err(RenderError::MissingVertexBuffer));
    assert_eq!(
        r.unwrap_err().message(),
        "Vert Buffer not generated for mesh"
    );
}

#[test]
fn error_messages_name_each_resource() {
    assert_eq!(
        RenderError::MissingBindGroup.message(),
        "Bind Group not generated for mesh"
    );
    assert_eq!(
        RenderError::MissingVertexBuffer.message(),
        "Vert Buffer not generated for mesh"
    );
    assert_eq!(
        RenderError::MissingIndexBuffer.message(),
        "Ind Buffer not generated for mesh"
    );
}

#[test]
fn vertex_only_shader_inherits_default_fragment_module() {
    let mut c = canvas();
    let vertex_only = Shader {
        id: 5,
        vs_module: Some(50),
        fs_module: None,
    };
    c.set_shader(vertex_only);
    c.draw_mesh(ready_mesh(), param());
    assert_eq!(c.pipelines.len(), 2);
    assert_eq!(c.pipelines[1].vs_module, 50);
    assert_eq!(c.pipelines[1].fs_module, 11);
    assert_eq!(c.pipelines[1].state.shader.id, 5);
}

#[test]
fn set_shader_does_not_repin_enqueued_draws() {
    let mut c = canvas();
    c.draw_mesh(ready_mesh(), param());
    let pinned = c.draws[0].pipeline_id;
    c.set_shader(Shader {
        id: 9,
        vs_module: Some(90),
        fs_module: Some(91),
    });
    assert_eq!(c.draws[0].pipeline_id, pinned);
    c.set_default_shader();
    assert_eq!(c.state.shader.id, 1);
}

#[test]
fn bind_groups_are_generated_once_with_fresh_handles() {
    let mut c = canvas();
    c.draw_mesh(ready_mesh(), param());
    c.draw_mesh(ready_mesh(), param());
    let first = c.draws[0].mesh.bind_group.expect("generated");
    let second = c.draws[1].mesh.bind_group.expect("generated");
    assert_eq!(first.id, 0);
    assert_eq!(second.id, 1);
    assert_eq!(c.next_bind_group, 2);

    let mut prebound = ready_mesh();
    prebound.bind_group = Some(first);
    c.draw_mesh(prebound, param());
    assert_eq!(c.draws[2].mesh.bind_group.unwrap().id, 0);
    assert_eq!(c.next_bind_group, 2);
}

#[test]
fn finish_on_empty_queue_plans_no_steps() {
    let mut c = canvas();
    let plan = c.finish().expect("empty frame succeeds");
    assert_eq!(plan.steps.len(), 0);
    assert_eq!(c.instance_buffer.as_ref().unwrap().len(), 0);
}

#[test]
fn next_frame_recovers_after_error() {
    let mut c = canvas();
    let mut broken = ready_mesh();
    broken.ind_buffer = None;
    c.draw_mesh(broken, param());
    assert!(c.finish().is_err());
    c.draw_mesh(ready_mesh(), param());
    let plan = c.finish().expect("second frame succeeds");
    assert_eq!(plan.steps.len(), 1);
    assert_eq!(plan.steps[0].first_instance, 0);
    assert_eq!(c.instance_buffer.as_ref().unwrap().len(), 1);
}

#[test]
fn draw_uses_the_drawable_impl() {
    let mut c = canvas();
    let mesh = ready_mesh();
    c.draw(&mesh, param());
    assert_eq!(c.draws.len(), 1);
    assert_eq!(c.draws[0].param.offset, None);
}

#[test]
fn samplers_are_recorded_on_generated_bind_groups() {
    let mut c = canvas();
    let mut sampler = canvas3d::Sampler::default();
    sampler.mag_filter = canvas3d::FilterMode::Nearest;
    c.set_sampler(sampler);
    c.draw_mesh(ready_mesh(), param());
    assert_eq!(
        c.draws[0].mesh.bind_group.unwrap().sampler.mag_filter,
        canvas3d::FilterMode::Nearest
    );
    c.set_default_sampler();
    assert_eq!(c.curr_sampler, canvas3d::Sampler::default());
}
