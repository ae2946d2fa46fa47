use render_core::bits::{Mat4Bits, QuatBits, Vec3Bits};
use render_core::camera::Camera;

fn v3(x: f32, y: f32, z: f32) -> Vec3Bits {
    Vec3Bits { x: x.to_bits(), y: y.to_bits(), z: z.to_bits() }
}

fn quat_bits(q: glam::Quat) -> QuatBits {
    QuatBits { x: q.x.to_bits(), y: q.y.to_bits(), z: q.z.to_bits(), w: q.w.to_bits() }
}

fn mat_to_f32(m: &Mat4Bits) -> [f32; 16] {
    m.to_array().map(f32::from_bits)
}

fn mat_bits(m: glam::Mat4) -> Mat4Bits {
    Mat4Bits::from_array(m.to_cols_array().map(f32::to_bits))
}

fn test_camera() -> Camera {
    let rot = glam::Quat::from_rotation_y(0.7) * glam::Quat::from_rotation_x(-0.2);
    Camera::new(
        v3(1.5, -2.0, 3.25),
        quat_bits(rot),
        70.0f32.to_bits(),
        (1280.0f32 / 720.0f32).to_bits(),
        0.5f32.to_bits(),
        250.0f32.to_bits(),
    )
}

#[test]
fn view_proj_read_twice_is_bit_identical() {
    let mut camera = test_camera();
    let first = camera.view_proj_matrix();
    let second = camera.view_proj_matrix();
    assert_eq!(first, second);
    let third = camera.view_proj_matrix();
    assert_eq!(first, third);
}

#[test]
fn derived_values_match_direct_recomputation() {
    let rot = glam::Quat::from_rotation_y(0.7) * glam::Quat::from_rotation_x(-0.2);
    let pos = glam::Vec3::new(1.5, -2.0, 3.25);
    let mut camera = test_camera();

    let expected_view = glam::Mat4::from_rotation_translation(rot, pos).inverse();
    let expected_proj = glam::Mat4::perspective_lh(
        70.0f32.to_radians(),
        1280.0f32 / 720.0f32,
        0.5,
        250.0,
    );
    let expected_vp = expected_proj * expected_view;
    let expected_look = rot.mul_vec3(glam::Vec3::Z);

    assert_eq!(camera.view_matrix(), mat_bits(expected_view));
    assert_eq!(camera.proj_matrix(), mat_bits(expected_proj));
    assert_eq!(camera.view_proj_matrix(), mat_bits(expected_vp));
    let look = camera.look_dir();
    assert_eq!(
        [look.x, look.y, look.z],
        [
            expected_look.x.to_bits(),
            expected_look.y.to_bits(),
            expected_look.z.to_bits()
        ]
    );
}

#[test]
fn setter_invalidates_cache_and_recomputes_from_new_params() {
    let mut camera = test_camera();
    let before = camera.view_proj_matrix();

    let new_pos = glam::Vec3::new(-4.0, 8.0, 0.5);
    camera.set_position(v3(new_pos.x, new_pos.y, new_pos.z));
    let after = camera.view_proj_matrix();
    assert_ne!(before, after);

    let rot = glam::Quat::from_rotation_y(0.7) * glam::Quat::from_rotation_x(-0.2);
    let expected_view = glam::Mat4::from_rotation_translation(rot, new_pos).inverse();
    let expected_proj = glam::Mat4::perspective_lh(
        70.0f32.to_radians(),
        1280.0f32 / 720.0f32,
        0.5,
        250.0,
    );
    assert_eq!(after, mat_bits(expected_proj * expected_view));
}

#[test]
fn each_setter_retargets_its_parameter() {
    let mut camera = test_camera();
    let before = camera.view_proj_matrix();

    camera.set_fov(45.0f32.to_bits());
    let after_fov = camera.view_proj_matrix();
    assert_ne!(before, after_fov);

    camera.set_aspect_ratio(2.0f32.to_bits());
    let after_aspect = camera.view_proj_matrix();
    assert_ne!(after_fov, after_aspect);

    camera.set_near_plane(0.25f32.to_bits());
    camera.set_far_plane(500.0f32.to_bits());
    camera.set_rotation(quat_bits(glam::Quat::from_rotation_y(1.1)));
    let after_all = camera.view_proj_matrix();

    let expected_view =
        glam::Mat4::from_rotation_translation(glam::Quat::from_rotation_y(1.1), glam::Vec3::new(1.5, -2.0, 3.25))
            .inverse();
    let expected_proj = glam::Mat4::perspective_lh(45.0f32.to_radians(), 2.0, 0.25, 500.0);
    assert_eq!(after_all, mat_bits(expected_proj * expected_view));
}

#[test]
fn default_camera_view_is_identity_and_proj_matches_formula() {
    let mut camera = Camera::new(
        v3(0.0, 0.0, 0.0),
        QuatBits {
            x: 0.0f32.to_bits(),
            y: 0.0f32.to_bits(),
            z: 0.0f32.to_bits(),
            w: 1.0f32.to_bits(),
        },
        60.0f32.to_bits(),
        (800.0f32 / 600.0f32).to_bits(),
        0.1f32.to_bits(),
        100.0f32.to_bits(),
    );

    let view = mat_to_f32(&camera.view_matrix());
    let identity = glam::Mat4::IDENTITY.to_cols_array();
    for i in 0..16 {
        assert!((view[i] - identity[i]).abs() < 1e-5, "view[{}] = {}", i, view[i]);
    }

    let proj = mat_to_f32(&camera.proj_matrix());
    let fov = 60.0f32.to_radians();
    let aspect = 800.0f32 / 600.0f32;
    let (near, far) = (0.1f32, 100.0f32);
    let h = (0.5 * fov).cos() / (0.5 * fov).sin();
    let w = h / aspect;
    let r = far / (far - near);
    let mut expected = [0.0f32; 16];
    expected[0] = w;
    expected[5] = h;
    expected[10] = r;
    expected[11] = 1.0;
    expected[14] = -r * near;
    for i in 0..16 {
        assert!(
            (proj[i] - expected[i]).abs() < 1e-5,
            "proj[{}] = {} expected {}",
            i,
            proj[i],
            expected[i]
        );
    }
}
