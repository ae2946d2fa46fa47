//! The scene-wide uniform record shared read-only by every render pass.
//!
//! Its byte layout is a wire-format contract with the GPU-side shader: the
//! fields appear in a fixed order with 16-byte-aligned vector padding, each
//! scalar little endian.  `to_bytes` produces exactly that image, proved
//! against the spec-level encoding, and the shell writes those bytes into
//! the uniform buffer unchanged.

use vstd::prelude::*;

use crate::bits::Mat4Bits;
use crate::bits::Vec2Bits;
use crate::bits::Vec3Bits;
use crate::bits::mat4_identity;
use crate::bits::mat4_le_bytes;
use crate::bits::push_mat4_le;
use crate::bits::push_pad4;
use crate::bits::push_u32_le;
use crate::bits::push_vec2_le;
use crate::bits::push_vec3_le;
use crate::bits::u32_le_bytes;
use crate::bits::vec2_le_bytes;
use crate::bits::vec2_zero;
use crate::bits::vec3_le_bytes;
use crate::bits::vec3_zero;
use crate::bits::F32_NEG_ONE;
use crate::bits::F32_ZERO;

verus! {

/// Bit pattern of `0.8f32`, the default light color's red channel.
pub const F32_LIGHT_R: u32 = 0x3F4C_CCCD;
/// Bit pattern of `0.48f32`, the default light color's green channel.
pub const F32_LIGHT_G: u32 = 0x3EF5_C28F;
/// Bit pattern of `0.74f32`, the default light color's blue channel.
pub const F32_LIGHT_B: u32 = 0x3F3D_70A4;
/// Bit pattern of `0.085f32`, the default ambient color's red channel.
pub const F32_AMBIENT_R: u32 = 0x3DAE_147B;
/// Bit pattern of `0.245f32`, the default ambient color's green channel.
pub const F32_AMBIENT_G: u32 = 0x3E7A_E148;
/// Bit pattern of `0.494f32`, the default ambient color's blue channel.
pub const F32_AMBIENT_B: u32 = 0x3EFC_ED91;

/// The global directional light: direction and color.
#[derive(Clone, Copy, PartialEq, Eq, Structural, Debug)]
pub struct GlobalLight {
    pub light_direction: Vec3Bits,
    pub light_color: Vec3Bits,
}

/// The default global light: direction `(-1, -1, -1)`, a warm pink color.
pub open spec fn global_light_default() -> GlobalLight {
    GlobalLight {
        light_direction: Vec3Bits { x: F32_NEG_ONE, y: F32_NEG_ONE, z: F32_NEG_ONE },
        light_color: Vec3Bits { x: F32_LIGHT_R, y: F32_LIGHT_G, z: F32_LIGHT_B },
    }
}

impl GlobalLight {
    pub fn new(light_direction: Vec3Bits, light_color: Vec3Bits) -> (r: GlobalLight)
        ensures
            r == (GlobalLight { light_direction, light_color }),
    {
        GlobalLight { light_direction, light_color }
    }
}

impl Default for GlobalLight {
    fn default() -> (r: GlobalLight)
        ensures
            r == global_light_default(),
    {
        GlobalLight {
            light_direction: Vec3Bits { x: F32_NEG_ONE, y: F32_NEG_ONE, z: F32_NEG_ONE },
            light_color: Vec3Bits { x: F32_LIGHT_R, y: F32_LIGHT_G, z: F32_LIGHT_B },
        }
    }
}

/// The per-frame scene record: camera matrices, camera state, surface size,
/// lighting and accumulated time, all as bit patterns.
#[derive(Clone, Copy, PartialEq, Eq, Structural, Debug)]
pub struct SceneUniform {
    pub view_proj_matrix: Mat4Bits,
    pub camera_dir: Vec3Bits,
    pub camera_pos: Vec3Bits,
    pub surface_size: Vec2Bits,
    pub camera_near: u32,
    pub camera_far: u32,
    pub global_light: GlobalLight,
    pub ambient_light: Vec3Bits,
    pub time: u32,
}

/// The default scene record: identity matrix, zero vectors, the default
/// light, a deep blue ambient color and zero accumulated time.
pub open spec fn scene_uniform_default() -> SceneUniform {
    SceneUniform {
        view_proj_matrix: mat4_identity(),
        camera_dir: vec3_zero(),
        camera_pos: vec3_zero(),
        surface_size: vec2_zero(),
        camera_near: F32_ZERO,
        camera_far: F32_ZERO,
        global_light: global_light_default(),
        ambient_light: Vec3Bits { x: F32_AMBIENT_R, y: F32_AMBIENT_G, z: F32_AMBIENT_B },
        time: F32_ZERO,
    }
}

/// Byte image of the global light: each color 16-byte aligned by one word of
/// zero padding.
pub open spec fn global_light_le_bytes(l: GlobalLight) -> Seq<u8> {
    vec3_le_bytes(l.light_direction) + u32_le_bytes(0) + vec3_le_bytes(l.light_color)
        + u32_le_bytes(0)
}

/// Byte image of the whole scene record, in shader field order: the
/// view-projection matrix, the padded camera direction and position, the
/// surface size, the clip planes, the global light, the ambient color and
/// the accumulated time.
pub open spec fn scene_uniform_le_bytes(u: SceneUniform) -> Seq<u8> {
    mat4_le_bytes(u.view_proj_matrix) + vec3_le_bytes(u.camera_dir) + u32_le_bytes(0)
        + vec3_le_bytes(u.camera_pos) + u32_le_bytes(0) + vec2_le_bytes(u.surface_size)
        + u32_le_bytes(u.camera_near) + u32_le_bytes(u.camera_far)
        + global_light_le_bytes(u.global_light) + vec3_le_bytes(u.ambient_light)
        + u32_le_bytes(u.time)
}

impl SceneUniform {
    pub fn new(
        view_proj_matrix: Mat4Bits,
        global_light: GlobalLight,
        ambient_light: Vec3Bits,
    ) -> (r: SceneUniform)
        ensures
            r == (SceneUniform {
                view_proj_matrix,
                global_light,
                ambient_light,
                ..scene_uniform_default()
            }),
    {
        SceneUniform {
            view_proj_matrix,
            camera_dir: Vec3Bits::zero(),
            camera_pos: Vec3Bits::zero(),
            surface_size: Vec2Bits::zero(),
            camera_near: F32_ZERO,
            camera_far: F32_ZERO,
            global_light,
            ambient_light,
            time: F32_ZERO,
        }
    }

    /// The 160-byte GPU image of this record.
    pub fn to_bytes(&self) -> (r: Vec<u8>)
        ensures
            r@ == scene_uniform_le_bytes(*self),
            r@.len() == 160,
    {
        let mut out: Vec<u8> = Vec::new();
        push_mat4_le(&mut out, &self.view_proj_matrix);
        push_vec3_le(&mut out, &self.camera_dir);
        push_pad4(&mut out);
        push_vec3_le(&mut out, &self.camera_pos);
        push_pad4(&mut out);
        push_vec2_le(&mut out, &self.surface_size);
        push_u32_le(&mut out, self.camera_near);
        push_u32_le(&mut out, self.camera_far);
        push_vec3_le(&mut out, &self.global_light.light_direction);
        push_pad4(&mut out);
        push_vec3_le(&mut out, &self.global_light.light_color);
        push_pad4(&mut out);
        push_vec3_le(&mut out, &self.ambient_light);
        push_u32_le(&mut out, self.time);
        proof {
            assert(out@ =~= scene_uniform_le_bytes(*self));
        }
        out
    }
}

impl Default for SceneUniform {
    fn default() -> (r: SceneUniform)
        ensures
            r == scene_uniform_default(),
    {
        SceneUniform {
            view_proj_matrix: Mat4Bits::identity(),
            camera_dir: Vec3Bits::zero(),
            camera_pos: Vec3Bits::zero(),
            surface_size: Vec2Bits::zero(),
            camera_near: F32_ZERO,
            camera_far: F32_ZERO,
            global_light: GlobalLight::default(),
            ambient_light: Vec3Bits { x: F32_AMBIENT_R, y: F32_AMBIENT_G, z: F32_AMBIENT_B },
            time: F32_ZERO,
        }
    }
}

} // verus!
