use render_core::bits::{Mat4Bits, Vec2Bits, Vec3Bits, Vec4Bits};
use render_core::scene::{GlobalLight, SceneUniform};
use render_core::skybox_renderer::{SkyboxRendererSettings, SkyboxUniform};
use render_core::water_renderer::{WaterRendererSettings, WaterUniform};

fn le(words: &[u32]) -> Vec<u8> {
    let mut out = Vec::new();
    for w in words {
        out.extend_from_slice(&w.to_le_bytes());
    }
    out
}

fn counting_mat() -> Mat4Bits {
    let mut a = [0u32; 16];
    for (i, slot) in a.iter_mut().enumerate() {
        *slot = 0x1000 + i as u32;
    }
    Mat4Bits::from_array(a)
}

#[test]
fn scene_uniform_byte_layout_is_exact() {
    let u = SceneUniform {
        view_proj_matrix: counting_mat(),
        camera_dir: Vec3Bits { x: 0xD1, y: 0xD2, z: 0xD3 },
        camera_pos: Vec3Bits { x: 0xA1, y: 0xA2, z: 0xA3 },
        surface_size: Vec2Bits { x: 0x51, y: 0x52 },
        camera_near: 0x4E,
        camera_far: 0x4F,
        global_light: GlobalLight {
            light_direction: Vec3Bits { x: 0xE1, y: 0xE2, z: 0xE3 },
            light_color: Vec3Bits { x: 0xC1, y: 0xC2, z: 0xC3 },
        },
        ambient_light: Vec3Bits { x: 0xB1, y: 0xB2, z: 0xB3 },
        time: 0x71,
    };

    let bytes = u.to_bytes();
    assert_eq!(bytes.len(), 160);

    let mat_words: Vec<u32> = (0..16).map(|i| 0x1000 + i as u32).collect();
    assert_eq!(&bytes[0..64], le(&mat_words).as_slice());
    assert_eq!(&bytes[64..76], le(&[0xD1, 0xD2, 0xD3]).as_slice());
    assert_eq!(&bytes[76..80], le(&[0]).as_slice());
    assert_eq!(&bytes[80..92], le(&[0xA1, 0xA2, 0xA3]).as_slice());
    assert_eq!(&bytes[92..96], le(&[0]).as_slice());
    assert_eq!(&bytes[96..104], le(&[0x51, 0x52]).as_slice());
    assert_eq!(&bytes[104..108], le(&[0x4E]).as_slice());
    assert_eq!(&bytes[108..112], le(&[0x4F]).as_slice());
    assert_eq!(&bytes[112..124], le(&[0xE1, 0xE2, 0xE3]).as_slice());
    assert_eq!(&bytes[124..128], le(&[0]).as_slice());
    assert_eq!(&bytes[128..140], le(&[0xC1, 0xC2, 0xC3]).as_slice());
    assert_eq!(&bytes[140..144], le(&[0]).as_slice());
    assert_eq!(&bytes[144..156], le(&[0xB1, 0xB2, 0xB3]).as_slice());
    assert_eq!(&bytes[156..160], le(&[0x71]).as_slice());
}

#[test]
fn scene_uniform_default_encodes_the_documented_colors() {
    let bytes = SceneUniform::default().to_bytes();
    // Identity view-projection matrix.
    assert_eq!(&bytes[0..4], &1.0f32.to_le_bytes());
    assert_eq!(&bytes[4..8], &0.0f32.to_le_bytes());
    // Light direction (-1, -1, -1).
    assert_eq!(&bytes[112..116], &(-1.0f32).to_le_bytes());
    assert_eq!(&bytes[116..120], &(-1.0f32).to_le_bytes());
    assert_eq!(&bytes[120..124], &(-1.0f32).to_le_bytes());
    // Light color (0.8, 0.48, 0.74).
    assert_eq!(&bytes[128..132], &0.8f32.to_le_bytes());
    assert_eq!(&bytes[132..136], &0.48f32.to_le_bytes());
    assert_eq!(&bytes[136..140], &0.74f32.to_le_bytes());
    // Ambient light (0.085, 0.245, 0.494).
    assert_eq!(&bytes[144..148], &0.085f32.to_le_bytes());
    assert_eq!(&bytes[148..152], &0.245f32.to_le_bytes());
    assert_eq!(&bytes[152..156], &0.494f32.to_le_bytes());
    // Time starts at zero.
    assert_eq!(&bytes[156..160], &0.0f32.to_le_bytes());
}

#[test]
fn skybox_uniform_byte_layout_is_exact() {
    let settings = SkyboxRendererSettings::default();
    let u = SkyboxUniform::new(&settings);
    let bytes = u.to_bytes();
    assert_eq!(bytes.len(), 112);

    // Identity transform until the first frame.
    assert_eq!(&bytes[0..4], &1.0f32.to_le_bytes());
    // Default colors as documented.
    assert_eq!(&bytes[64..68], &0.17f32.to_le_bytes());
    assert_eq!(&bytes[68..72], &0.49f32.to_le_bytes());
    assert_eq!(&bytes[72..76], &0.988f32.to_le_bytes());
    assert_eq!(&bytes[76..80], &0.0f32.to_le_bytes());
    assert_eq!(&bytes[80..84], &0.72f32.to_le_bytes());
    assert_eq!(&bytes[84..88], &0.9f32.to_le_bytes());
    assert_eq!(&bytes[88..92], &0.96f32.to_le_bytes());
    assert_eq!(&bytes[92..96], &0.0f32.to_le_bytes());
    assert_eq!(&bytes[96..100], &0.15f32.to_le_bytes());
    assert_eq!(&bytes[100..104], &0.47f32.to_le_bytes());
    assert_eq!(&bytes[104..108], &0.76f32.to_le_bytes());
    assert_eq!(&bytes[108..112], &0.45f32.to_le_bytes());
}

#[test]
fn skybox_transform_keeps_only_rotation() {
    let mut camera = render_core::camera::Camera::new(
        Vec3Bits { x: 5.0f32.to_bits(), y: 6.0f32.to_bits(), z: 7.0f32.to_bits() },
        render_core::bits::QuatBits {
            x: 0.0f32.to_bits(),
            y: 0.0f32.to_bits(),
            z: 0.0f32.to_bits(),
            w: 1.0f32.to_bits(),
        },
        60.0f32.to_bits(),
        1.0f32.to_bits(),
        0.1f32.to_bits(),
        100.0f32.to_bits(),
    );
    let mut u = SkyboxUniform::new(&SkyboxRendererSettings::default());
    u.update_transform(&mut camera);

    let view = glam::Mat4::from_rotation_translation(glam::Quat::IDENTITY, glam::Vec3::new(5.0, 6.0, 7.0))
        .inverse();
    let proj = glam::Mat4::perspective_lh(60.0f32.to_radians(), 1.0, 0.1, 100.0);
    let expected = proj * glam::Mat4::from_mat3(glam::Mat3::from_mat4(view));
    assert_eq!(
        u.transform_matrix.to_array(),
        expected.to_cols_array().map(f32::to_bits)
    );
}

#[test]
fn water_uniform_byte_layout_is_exact() {
    let settings = WaterRendererSettings::default();
    let u = WaterUniform::new(&settings);
    let bytes = u.to_bytes();
    assert_eq!(bytes.len(), 64);

    assert_eq!(&bytes[0..4], &64.0f32.to_le_bytes());
    assert_eq!(&bytes[4..8], &150.0f32.to_le_bytes());
    assert_eq!(&bytes[8..16], &[0u8; 8]);
    assert_eq!(&bytes[16..20], &0.75f32.to_le_bytes());
    assert_eq!(&bytes[20..24], &0.84f32.to_le_bytes());
    assert_eq!(&bytes[24..28], &0.97f32.to_le_bytes());
    assert_eq!(&bytes[28..32], &[0u8; 4]);
    assert_eq!(&bytes[32..36], &0.8f32.to_le_bytes());
    assert_eq!(&bytes[36..40], &0.4f32.to_le_bytes());
    assert_eq!(&bytes[40..44], &0.4f32.to_le_bytes());
    assert_eq!(&bytes[44..48], &0.4f32.to_le_bytes());
    assert_eq!(&bytes[48..52], &0.2f32.to_le_bytes());
    assert_eq!(&bytes[52..64], &[0u8; 12]);
}

#[test]
fn water_settings_defaults_encode_the_documented_values() {
    let s = WaterRendererSettings::default();
    assert_eq!(s.tile_size, 0.75f32.to_bits());
    assert_eq!(s.tiles_count, 15);
    assert_eq!(s.color.x, 0.2f32.to_bits());
    assert_eq!(s.color.y, 0.5f32.to_bits());
    assert_eq!(s.color.z, 0.96f32.to_bits());
    assert_eq!(s.level, (-0.25f32).to_bits());
    assert_eq!(s.wave_height, 0.2f32.to_bits());
}

#[test]
fn pad_columns_match_vec4_view() {
    let m = Mat4Bits {
        x_axis: Vec4Bits { x: 1, y: 2, z: 3, w: 4 },
        y_axis: Vec4Bits { x: 5, y: 6, z: 7, w: 8 },
        z_axis: Vec4Bits { x: 9, y: 10, z: 11, w: 12 },
        w_axis: Vec4Bits { x: 13, y: 14, z: 15, w: 16 },
    };
    assert_eq!(m.to_array(), [1, 2, 3, 4, 5, 6, 7, 8, 9, 10, 11, 12, 13, 14, 15, 16]);
    assert_eq!(Mat4Bits::from_array(m.to_array()).to_array(), m.to_array());
}
