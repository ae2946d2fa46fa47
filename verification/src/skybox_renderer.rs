//! The skybox pass's share of the library: its stage, its pass-local
//! uniform record with the GPU wire format, and the per-frame transform.
//!
//! The skybox draws an always-background gradient cube.  Its transform
//! keeps only the rotation part of the camera's view matrix (so the cube
//! never moves away) and reapplies the projection.  The pipeline, geometry
//! and draw recording live in the GPU shell.

use vstd::prelude::*;

use crate::bits::Mat4Bits;
use crate::bits::Vec3Bits;
use crate::bits::mat4_identity;
use crate::bits::mat4_le_bytes;
use crate::bits::push_mat4_le;
use crate::bits::push_pad4;
use crate::bits::push_u32_le;
use crate::bits::push_vec3_le;
use crate::bits::u32_le_bytes;
use crate::bits::vec3_le_bytes;
use crate::camera::Camera;
use crate::math::mat3_from_mat4;
use crate::math::mat3_of_mat4;
use crate::math::mat4_from_mat3;
use crate::math::mat4_mul;
use crate::math::mat4_of_mat3;
use crate::math::mat4_prod;
use crate::renderer::RenderStage;

verus! {

/// Bit pattern of `0.17f32`, the default sky color's red channel.
pub const F32_SKY_R: u32 = 0x3E2E_147B;
/// Bit pattern of `0.49f32`, the default sky color's green channel.
pub const F32_SKY_G: u32 = 0x3EFA_E148;
/// Bit pattern of `0.988f32`, the default sky color's blue channel.
pub const F32_SKY_B: u32 = 0x3F7C_ED91;
/// Bit pattern of `0.72f32`, the default horizon color's red channel.
pub const F32_HORIZON_R: u32 = 0x3F38_51EC;
/// Bit pattern of `0.9f32`, the default horizon color's green channel.
pub const F32_HORIZON_G: u32 = 0x3F66_6666;
/// Bit pattern of `0.96f32`, the default horizon color's blue channel.
pub const F32_HORIZON_B: u32 = 0x3F75_C28F;
/// Bit pattern of `0.15f32`, the default bottom color's red channel.
pub const F32_BOTTOM_R: u32 = 0x3E19_999A;
/// Bit pattern of `0.47f32`, the default bottom color's green channel.
pub const F32_BOTTOM_G: u32 = 0x3EF0_A3D7;
/// Bit pattern of `0.76f32`, the default bottom color's blue channel.
pub const F32_BOTTOM_B: u32 = 0x3F42_8F5C;
/// Bit pattern of `0.45f32`, the default scattering strength.
pub const F32_SCATTERING: u32 = 0x3EE6_6666;

/// Construction-time settings of the skybox pass: its gradient colors and
/// scattering strength.
#[derive(Clone, Copy, PartialEq, Eq, Structural, Debug)]
pub struct SkyboxRendererSettings {
    pub sky_color: Vec3Bits,
    pub horizon_color: Vec3Bits,
    pub bottom_color: Vec3Bits,
    pub scattering: u32,
}

/// The default skybox: a blue gradient with a bright horizon.
pub open spec fn skybox_settings_default() -> SkyboxRendererSettings {
    SkyboxRendererSettings {
        sky_color: Vec3Bits { x: F32_SKY_R, y: F32_SKY_G, z: F32_SKY_B },
        horizon_color: Vec3Bits { x: F32_HORIZON_R, y: F32_HORIZON_G, z: F32_HORIZON_B },
        bottom_color: Vec3Bits { x: F32_BOTTOM_R, y: F32_BOTTOM_G, z: F32_BOTTOM_B },
        scattering: F32_SCATTERING,
    }
}

impl Default for SkyboxRendererSettings {
    fn default() -> (r: SkyboxRendererSettings)
        ensures
            r == skybox_settings_default(),
    {
        SkyboxRendererSettings {
            sky_color: Vec3Bits { x: F32_SKY_R, y: F32_SKY_G, z: F32_SKY_B },
            horizon_color: Vec3Bits { x: F32_HORIZON_R, y: F32_HORIZON_G, z: F32_HORIZON_B },
            bottom_color: Vec3Bits { x: F32_BOTTOM_R, y: F32_BOTTOM_G, z: F32_BOTTOM_B },
            scattering: F32_SCATTERING,
        }
    }
}

/// The skybox's pass-local uniform record.
#[derive(Clone, Copy, PartialEq, Eq, Structural, Debug)]
pub struct SkyboxUniform {
    pub transform_matrix: Mat4Bits,
    pub sky_color: Vec3Bits,
    pub horizon_color: Vec3Bits,
    pub bottom_color: Vec3Bits,
    pub scattering: u32,
}

/// The transform the skybox derives from a camera: the projection applied
/// to the rotation-only part of the view matrix.
pub open spec fn skybox_transform_of(camera: Camera) -> Mat4Bits {
    mat4_prod(camera.proj_of(), mat4_of_mat3(mat3_of_mat4(camera.view_of())))
}

/// Byte image of the skybox uniform, in shader field order: the transform,
/// the padded sky and horizon colors, the bottom color and the scattering.
pub open spec fn skybox_uniform_le_bytes(u: SkyboxUniform) -> Seq<u8> {
    mat4_le_bytes(u.transform_matrix) + vec3_le_bytes(u.sky_color) + u32_le_bytes(0)
        + vec3_le_bytes(u.horizon_color) + u32_le_bytes(0) + vec3_le_bytes(u.bottom_color)
        + u32_le_bytes(u.scattering)
}

impl SkyboxUniform {
    /// The record at pass construction: the settings' colors, an identity
    /// transform until the first frame derives one.
    pub fn new(settings: &SkyboxRendererSettings) -> (r: SkyboxUniform)
        ensures
            r == (SkyboxUniform {
                transform_matrix: mat4_identity(),
                sky_color: settings.sky_color,
                horizon_color: settings.horizon_color,
                bottom_color: settings.bottom_color,
                scattering: settings.scattering,
            }),
    {
        SkyboxUniform {
            transform_matrix: Mat4Bits::identity(),
            sky_color: settings.sky_color,
            horizon_color: settings.horizon_color,
            bottom_color: settings.bottom_color,
            scattering: settings.scattering,
        }
    }

    /// Refreshes the transform from the camera's current view and
    /// projection, leaving the camera's caches filled.
    pub fn update_transform(&mut self, camera: &mut Camera)
        requires
            old(camera).wf(),
        ensures
            *final(camera) == old(camera).refreshed(),
            *final(self) == (SkyboxUniform {
                transform_matrix: skybox_transform_of(*old(camera)),
                ..*old(self)
            }),
    {
        let view = camera.view_matrix();
        let proj = camera.proj_matrix();
        self.transform_matrix = mat4_mul(&proj, &mat4_from_mat3(&mat3_from_mat4(&view)));
    }

    /// The 112-byte GPU image of this record.
    pub fn to_bytes(&self) -> (r: Vec<u8>)
        ensures
            r@ == skybox_uniform_le_bytes(*self),
            r@.len() == 112,
    {
        let mut out: Vec<u8> = Vec::new();
        push_mat4_le(&mut out, &self.transform_matrix);
        push_vec3_le(&mut out, &self.sky_color);
        push_pad4(&mut out);
        push_vec3_le(&mut out, &self.horizon_color);
        push_pad4(&mut out);
        push_vec3_le(&mut out, &self.bottom_color);
        push_u32_le(&mut out, self.scattering);
        proof {
            assert(out@ =~= skybox_uniform_le_bytes(*self));
        }
        out
    }
}

/// The stage the skybox pass declares: it is background geometry, drawn and
/// snapshotted with the opaque stage.
pub fn skybox_stage() -> (r: RenderStage)
    ensures
        r == RenderStage::OPAQUE,
{
    RenderStage::OPAQUE
}

} // verus!
