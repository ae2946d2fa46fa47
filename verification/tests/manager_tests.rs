use render_core::render_manager::{RenderManager, RenderSettings, select_preferred_index};
use render_core::renderer::{FrameCommand, RenderStage};
use render_core::skybox_renderer::skybox_stage;
use render_core::time_manager::TimeManager;
use render_core::water_renderer::water_stage;

fn time_with_delta(delta_micros: u64) -> TimeManager {
    TimeManager { instant: std::time::Instant::now(), delta_micros }
}

fn manager_800_600() -> RenderManager {
    RenderManager::new(&RenderSettings::default(), 800, 600)
}

#[test]
fn new_manager_camera_defaults() {
    let m = manager_800_600();
    assert_eq!(m.camera.position.x, 0);
    assert_eq!(m.camera.rotation.w, 1.0f32.to_bits());
    assert_eq!(m.camera.fov, 60.0f32.to_bits());
    assert_eq!(m.camera.aspect_ratio, (800.0f32 / 600.0f32).to_bits());
    assert_eq!(m.camera.near_plane, 0.1f32.to_bits());
    assert_eq!(m.camera.far_plane, 100.0f32.to_bits());
    assert_eq!(m.time_micros, 0);
}

#[test]
fn resize_with_zero_dimension_changes_nothing() {
    let mut m = manager_800_600();
    let aspect_before = m.camera.aspect_ratio;
    let size_before = m.uniform.surface_size;

    assert_eq!(m.handle_resize(0, 600), None);
    assert_eq!(m.handle_resize(800, 0), None);
    assert_eq!(m.handle_resize(0, 0), None);

    assert_eq!(m.surface_width, 800);
    assert_eq!(m.surface_height, 600);
    assert_eq!(m.camera.aspect_ratio, aspect_before);
    assert_eq!(m.uniform.surface_size, size_before);
}

#[test]
fn resize_retargets_everything_at_the_new_size() {
    let mut m = manager_800_600();
    let outcome = m.handle_resize(1024, 768);
    assert_eq!(outcome, Some((1024, 768)));
    assert_eq!(m.surface_width, 1024);
    assert_eq!(m.surface_height, 768);
    assert_eq!(m.camera.aspect_ratio, (1024.0f32 / 768.0f32).to_bits());
    assert_eq!(m.uniform.surface_size.x, 1024.0f32.to_bits());
    assert_eq!(m.uniform.surface_size.y, 768.0f32.to_bits());
    assert!(m.scene_bind_group_stale);
}

#[test]
fn one_frame_orders_opaque_copy_transparent() {
    let mut m = manager_800_600();
    m.add_renderer(skybox_stage(), 0);
    m.add_renderer(water_stage(), 1);

    let plan = m.render(&time_with_delta(16_000));
    assert!(plan.rebuild_scene_bind_group);
    assert_eq!(
        plan.commands,
        vec![
            FrameCommand::Clear,
            FrameCommand::RunPass(0),
            FrameCommand::CopyOpaqueColor,
            FrameCommand::CopyOpaqueDepth,
            FrameCommand::RunPass(1),
            FrameCommand::Submit,
            FrameCommand::Present,
        ]
    );

    let plan2 = m.render(&time_with_delta(16_000));
    assert!(!plan2.rebuild_scene_bind_group);
    assert_eq!(plan2.commands, plan.commands);
}

#[test]
fn registration_order_is_kept_within_each_stage() {
    let mut m = manager_800_600();
    m.add_renderer(RenderStage::OPAQUE, 10);
    m.add_renderer(RenderStage::TRANSPARENT, 30);
    m.add_renderer(RenderStage::OPAQUE, 20);
    m.add_renderer(RenderStage::TRANSPARENT, 40);

    let plan = m.render(&time_with_delta(0));
    assert_eq!(
        plan.commands,
        vec![
            FrameCommand::Clear,
            FrameCommand::RunPass(10),
            FrameCommand::RunPass(20),
            FrameCommand::CopyOpaqueColor,
            FrameCommand::CopyOpaqueDepth,
            FrameCommand::RunPass(30),
            FrameCommand::RunPass(40),
            FrameCommand::Submit,
            FrameCommand::Present,
        ]
    );
}

#[test]
fn empty_stages_still_plan_a_whole_frame() {
    let mut m = manager_800_600();
    let plan = m.render(&time_with_delta(1000));
    assert_eq!(
        plan.commands,
        vec![
            FrameCommand::Clear,
            FrameCommand::CopyOpaqueColor,
            FrameCommand::CopyOpaqueDepth,
            FrameCommand::Submit,
            FrameCommand::Present,
        ]
    );
}

#[test]
fn time_accumulates_monotonically() {
    let mut m = manager_800_600();
    let mut previous: u64 = 0;
    for delta in [16_000u64, 0, 33_000, 7, 0, 1_000_000] {
        m.render(&time_with_delta(delta));
        assert!(m.time_micros >= previous);
        assert_eq!(m.time_micros, previous + delta);
        previous = m.time_micros;
    }
    let expected_secs = (previous as f32) / 1_000_000.0f32;
    assert_eq!(m.uniform.time, expected_secs.to_bits());
}

#[test]
fn frame_refreshes_uniform_from_camera() {
    let mut m = manager_800_600();
    let plan = m.render(&time_with_delta(500_000));

    let rot = glam::Quat::IDENTITY;
    let pos = glam::Vec3::ZERO;
    let view = glam::Mat4::from_rotation_translation(rot, pos).inverse();
    let proj = glam::Mat4::perspective_lh(60.0f32.to_radians(), 800.0 / 600.0, 0.1, 100.0);
    let vp = (proj * view).to_cols_array().map(f32::to_bits);
    assert_eq!(plan.uniform.view_proj_matrix.to_array(), vp);
    assert_eq!(plan.uniform.camera_near, 0.1f32.to_bits());
    assert_eq!(plan.uniform.camera_far, 100.0f32.to_bits());
    assert_eq!(plan.uniform.time, 0.5f32.to_bits());
    let look = rot.mul_vec3(glam::Vec3::Z);
    assert_eq!(plan.uniform.camera_dir.z, look.z.to_bits());
}

#[test]
fn preferred_index_picks_first_marked_else_first() {
    assert_eq!(select_preferred_index(&vec![false, true, true]), 1);
    assert_eq!(select_preferred_index(&vec![true, false]), 0);
    assert_eq!(select_preferred_index(&vec![false, false, false]), 0);
    assert_eq!(select_preferred_index(&vec![false]), 0);
}
