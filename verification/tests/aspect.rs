use canvas3d::ratio::{gcd, reduce_ratio};
use canvas3d::{
    Camera3d, CameraView, Canvas3d, Color, GraphicsInfo, ImageFormat, ImageInfo, Projection,
    Shader, Vec3Data,
};

fn default_shader() -> Shader {
    Shader {
        id: 1,
        vs_module: Some(10),
        fs_module: Some(11),
    }
}

fn gfx_info() -> GraphicsInfo {
    GraphicsInfo {
        window_width: 1920,
        window_height: 1080,
        surface_format: ImageFormat::Bgra8UnormSrgb,
        frame: ImageInfo {
            width: 1920,
            height: 1080,
            format: ImageFormat::Bgra8UnormSrgb,
        },
    }
}

fn camera() -> Camera3d {
    Camera3d {
        projection: Projection {
            aspect_num: 1,
            aspect_den: 1,
            fovy: 0x3F490FDB,
            znear: 0x3DCCCCCD,
            zfar: 0x42C80000,
        },
        view: CameraView {
            position: Vec3Data { x: 1, y: 2, z: 3 },
            yaw: 4,
            pitch: 5,
        },
    }
}

fn black() -> Color {
    Color { r: 0, g: 0, b: 0, a: 0x3F800000 }
}

#[test]
fn gcd_and_reduction() {
    assert_eq!(gcd(12, 18), 6);
    assert_eq!(gcd(7, 13), 1);
    assert_eq!(gcd(0, 5), 5);
    assert_eq!(reduce_ratio(1920, 1080), (16, 9));
    assert_eq!(reduce_ratio(800, 600), (4, 3));
    assert_eq!(reduce_ratio(0, 7), (0, 1));
}

#[test]
fn resize_with_equal_ratio_keeps_uniform() {
    let mut cam = camera();
    let mut c = Canvas3d::from_frame(&gfx_info(), default_shader(), &mut cam, black());
    let before = c.camera_uniform;
    // 960 x 540 is the same 16:9 ratio as 1920 x 1080.
    c.resize(960, 540, &mut cam);
    assert_eq!(c.camera_uniform, before);
    assert_eq!(cam.projection.aspect_num, 16);
    assert_eq!(cam.projection.aspect_den, 9);
}

#[test]
fn resize_with_new_ratio_changes_uniform() {
    let mut cam = camera();
    let mut c = Canvas3d::from_frame(&gfx_info(), default_shader(), &mut cam, black());
    let before = c.camera_uniform;
    c.resize(1000, 1000, &mut cam);
    assert_ne!(c.camera_uniform, before);
    assert_eq!(cam.projection.aspect_num, 1);
    assert_eq!(cam.projection.aspect_den, 1);
    assert_eq!(c.camera_uniform.proj, cam.projection);
}

#[test]
fn update_camera_mirrors_camera_state() {
    let mut cam = camera();
    let mut c = Canvas3d::from_frame(&gfx_info(), default_shader(), &mut cam, black());
    cam.view.yaw = 77;
    cam.view.position = Vec3Data { x: 9, y: 9, z: 9 };
    c.update_camera(&cam);
    assert_eq!(c.camera_uniform.view, cam.view);
    assert_eq!(c.camera_uniform.proj, cam.projection);
}
